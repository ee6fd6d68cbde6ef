//! Resolution of the registry upload name and the (owner, project)
//! pair from a repository identifier of the form
//! `owner/project` or `owner/subgroup.../project`.

use vstd::prelude::*;

use crate::errors::PushError;
use crate::strutil::{
    chars_of, is_ascii_whitespace, join_char, lemma_join_char_free, lemma_split_char_parts_free,
    lemma_split_char_peel, lemma_split_char_whole, lemma_split_join, split_char,
    string_from_chars,
};
use vstd::utf8::is_ascii_chars;

verus! {

/// Whether the repository identifier parses: an owner plus at least
/// one further segment, and exactly one further segment when subgroup
/// renaming is disabled.
pub open spec fn repo_ok(repository: Seq<char>, subgroup_renaming_disabled: bool) -> bool {
    let parts = split_char(repository, '/');
    parts.len() >= 2 && (subgroup_renaming_disabled ==> parts.len() == 2)
}

/// The owner: everything before the first `/`.
pub open spec fn spec_project_owner(repository: Seq<char>) -> Seq<char> {
    split_char(repository, '/')[0]
}

/// The project name: the second segment when subgroup renaming is
/// disabled, otherwise all remaining segments joined with `-`.
pub open spec fn spec_project_name(
    repository: Seq<char>,
    subgroup_renaming_disabled: bool,
) -> Seq<char> {
    let parts = split_char(repository, '/');
    if subgroup_renaming_disabled {
        parts[1]
    } else {
        join_char(parts.drop_first(), '-')
    }
}

/// Whether an explicitly supplied upload name is acceptable: exactly
/// one `/`, ASCII only, and no whitespace.
pub open spec fn name_ok(name: Seq<char>) -> bool {
    &&& split_char(name, '/').len() == 2
    &&& is_ascii_chars(name)
    &&& forall|i: int| 0 <= i < name.len() ==> !is_ascii_whitespace(#[trigger] name[i])
}

/// The upload name that resolution yields: the explicit name when one
/// was given, else `owner/project`.
pub open spec fn spec_upload_name(
    explicit_name: Option<Seq<char>>,
    repository: Seq<char>,
    subgroup_renaming_disabled: bool,
) -> Seq<char> {
    match explicit_name {
        Some(n) => n,
        None => spec_project_owner(repository) + seq!['/'] + spec_project_name(
            repository,
            subgroup_renaming_disabled,
        ),
    }
}

/// The message shown when the repository identifier does not parse;
/// it names the expected format, which depends on whether subgroup
/// renaming is enabled.
pub open spec fn repo_error_message(subgroup_renaming_disabled: bool) -> Seq<char> {
    if subgroup_renaming_disabled {
        "Could not determine project owner and name; pass `--repository` formatted like `determinatesystems/flakehub-push`"@
    } else {
        "Could not determine project owner and name; pass `--repository` formatted like `determinatesystems/flakehub-push` or `determinatesystems/subgroup-segments.../flakehub-push`)"@
    }
}

/// The message shown when an explicitly supplied upload name is rejected.
pub open spec fn name_error_message() -> Seq<char> {
    "The argument `--name` must be in the format of `owner-name/flake-name` and cannot contain whitespace or other special characters"@
}

/// Split a character vector on a separator character.
pub fn split_on_char(v: &Vec<char>, c: char) -> (parts: Vec<Vec<char>>)
    ensures
        parts.deep_view() =~~= split_char(v@, c),
        parts@.len() >= 1,
{
    let mut done: Vec<Vec<char>> = Vec::new();
    let mut cur: Vec<char> = Vec::new();
    let mut i: usize = 0;
    proof {
        crate::strutil::lemma_split_char_len(v@, c);
        assert(v@.skip(0) =~= v@);
    }
    while i < v.len()
        invariant
            i <= v@.len(),
            split_char(v@, c) =~~= done.deep_view() + seq![cur@ + split_char(
                v@.skip(i as int),
                c,
            )[0]] + split_char(v@.skip(i as int), c).drop_first(),
        decreases v@.len() - i,
    {
        let ch = v[i];
        proof {
            assert(v@.skip(i as int) =~= seq![v@[i as int]] + v@.skip(i + 1));
            assert(v@.skip(i as int).drop_first() =~= v@.skip(i + 1));
            crate::strutil::lemma_split_char_len(v@.skip(i + 1), c);
        }
        if ch == c {
            proof {
                assert(split_char(v@.skip(i as int), c) =~~= seq![Seq::<char>::empty()]
                    + split_char(v@.skip(i + 1), c));
            }
            let ghost old_done_dv = done.deep_view();
            let ghost old_cur = cur@;
            done.push(cur);
            cur = Vec::new();
            proof {
                assert(done.deep_view() =~~= old_done_dv + seq![old_cur]);
            }
        } else {
            let ghost rest = split_char(v@.skip(i + 1), c);
            proof {
                assert(split_char(v@.skip(i as int), c) =~~= seq![seq![v@[i as int]] + rest[0]]
                    + rest.drop_first());
                assert(cur@.push(ch) + rest[0] =~= cur@ + (seq![ch] + rest[0]));
            }
            cur.push(ch);
        }
        i = i + 1;
    }
    proof {
        assert(v@.skip(v@.len() as int) =~= Seq::<char>::empty());
        assert(split_char(Seq::<char>::empty(), c) =~~= seq![Seq::<char>::empty()]);
        assert(cur@ + Seq::<char>::empty() =~= cur@);
    }
    let ghost final_done_dv = done.deep_view();
    let ghost final_cur = cur@;
    done.push(cur);
    proof {
        assert(done.deep_view() =~~= final_done_dv + seq![final_cur]);
    }
    done
}

proof fn lemma_join_char_snoc(parts: Seq<Seq<char>>, p: Seq<char>, c: char)
    requires
        parts.len() >= 1,
    ensures
        join_char(parts.push(p), c) =~= join_char(parts, c) + seq![c] + p,
    decreases parts.len(),
{
    if parts.len() == 1 {
        assert(parts.push(p).drop_first() =~~= seq![p]);
        assert(parts.push(p)[0] == parts[0]);
        assert(join_char(parts.push(p), c) =~= parts[0] + seq![c] + join_char(seq![p], c));
        assert(join_char(seq![p], c) == p);
    } else {
        assert(parts.push(p).drop_first() =~~= parts.drop_first().push(p));
        lemma_join_char_snoc(parts.drop_first(), p, c);
        assert(join_char(parts.push(p), c) =~= parts[0] + seq![c] + join_char(
            parts.drop_first().push(p),
            c,
        ));
        assert(parts[0] + seq![c] + (join_char(parts.drop_first(), c) + seq![c] + p) =~= (
        parts[0] + seq![c] + join_char(parts.drop_first(), c)) + seq![c] + p);
    }
}

/// Join the parts from `start` onward with a separator character.
pub fn join_from(parts: &Vec<Vec<char>>, start: usize, sep: char) -> (r: Vec<char>)
    requires
        start < parts@.len(),
    ensures
        r@ =~= join_char(parts.deep_view().skip(start as int), sep),
{
    let mut out: Vec<char> = Vec::new();
    let mut j: usize = 0;
    let first = &parts[start];
    while j < first.len()
        invariant
            start < parts@.len(),
            first == parts@[start as int],
            j <= first@.len(),
            out@ =~= first@.take(j as int),
        decreases first@.len() - j,
    {
        out.push(first[j]);
        proof {
            assert(first@.take(j + 1 as int) =~= first@.take(j as int).push(first@[j as int]));
        }
        j = j + 1;
    }
    proof {
        assert(out@ =~= parts.deep_view()[start as int]);
        assert(parts.deep_view().skip(start as int).take(1) =~~= seq![
            parts.deep_view()[start as int],
        ]);
        assert(join_char(seq![parts.deep_view()[start as int]], sep) == parts.deep_view()[
            start as int
        ]);
    }
    let total = parts.len();
    let mut i: usize = start + 1;
    while i < total
        invariant
            total == parts@.len(),
            start < i <= parts@.len(),
            out@ =~= join_char(parts.deep_view().skip(start as int).take(i - start), sep),
        decreases parts@.len() - i,
    {
        out.push(sep);
        let ghost prev = join_char(parts.deep_view().skip(start as int).take(i - start), sep);
        let part = &parts[i];
        let mut j2: usize = 0;
        while j2 < part.len()
            invariant
                i < parts@.len(),
                part == parts@[i as int],
                j2 <= part@.len(),
                out@ =~= prev + seq![sep] + part@.take(j2 as int),
            decreases part@.len() - j2,
        {
            out.push(part[j2]);
            proof {
                assert(part@.take(j2 + 1 as int) =~= part@.take(j2 as int).push(
                    part@[j2 as int],
                ));
            }
            j2 = j2 + 1;
        }
        proof {
            assert(part@.take(part@.len() as int) =~= part@);
            let dv = parts.deep_view();
            assert(dv.skip(start as int).take(i - start + 1) =~~= dv.skip(start as int).take(
                i - start,
            ).push(dv[i as int]));
            lemma_join_char_snoc(dv.skip(start as int).take(i - start), dv[i as int], sep);
            assert(dv[i as int] =~= part@);
        }
        i = i + 1;
    }
    proof {
        assert(parts.deep_view().skip(start as int).take(parts@.len() - start)
            =~~= parts.deep_view().skip(start as int));
    }
    out
}

/// Parse the repository identifier and an optional explicit upload
/// name into `(upload_name, project_owner, project_name)`.
///
/// The repository must hold an owner and at least one further segment;
/// with subgroup renaming disabled exactly one further segment is
/// allowed, otherwise the remaining segments are joined with `-`. An
/// explicit name must hold exactly one `/`, be ASCII, and hold no
/// whitespace; when none is given the name is `owner/project`. Either
/// way, the upload name holds exactly one `/`.
pub fn determine_names(
    explicitly_provided_name: &Option<String>,
    repository: &str,
    subgroup_renaming_explicitly_disabled: bool,
) -> (r: Result<(String, String, String), PushError>)
    ensures
        r is Ok <==> repo_ok(repository@, subgroup_renaming_explicitly_disabled) && (
        match explicitly_provided_name {
            Some(n) => name_ok(n@),
            None => true,
        }),
        r matches Ok(t) ==> {
            &&& t.0@ == spec_upload_name(
                match explicitly_provided_name {
                    Some(n) => Some(n@),
                    None => None,
                },
                repository@,
                subgroup_renaming_explicitly_disabled,
            )
            &&& t.1@ == spec_project_owner(repository@)
            &&& t.2@ == spec_project_name(repository@, subgroup_renaming_explicitly_disabled)
        },
        r matches Ok(t) ==> split_char(t.0@, '/').len() == 2,
        r matches Err(e) ==> e is Configuration && e.spec_message() == if !repo_ok(
            repository@,
            subgroup_renaming_explicitly_disabled,
        ) {
            repo_error_message(subgroup_renaming_explicitly_disabled)
        } else {
            name_error_message()
        },
{
    let repo_chars = chars_of(repository);
    let parts = split_on_char(&repo_chars, '/');
    if parts.len() < 2 || (subgroup_renaming_explicitly_disabled && parts.len() > 2) {
        let msg = if subgroup_renaming_explicitly_disabled {
            "Could not determine project owner and name; pass `--repository` formatted like `determinatesystems/flakehub-push`"
        } else {
            "Could not determine project owner and name; pass `--repository` formatted like `determinatesystems/flakehub-push` or `determinatesystems/subgroup-segments.../flakehub-push`)"
        };
        return Err(PushError::Configuration(msg.to_owned()));
    }
    let project_owner = string_from_chars(&parts[0]);
    let project_name = if subgroup_renaming_explicitly_disabled {
        string_from_chars(&parts[1])
    } else {
        let joined = join_from(&parts, 1, '-');
        proof {
            assert(parts.deep_view().skip(1) =~~= split_char(repository@, '/').drop_first());
        }
        string_from_chars(&joined)
    };
    let upload_name = match explicitly_provided_name {
        Some(name) => {
            let name_chars = chars_of(name.as_str());
            let name_parts = split_on_char(&name_chars, '/');
            let mut whitespace_free = true;
            let mut k: usize = 0;
            while k < name_chars.len()
                invariant
                    k <= name_chars@.len(),
                    whitespace_free == (forall|i: int|
                        0 <= i < k ==> !is_ascii_whitespace(#[trigger] name_chars@[i])),
                decreases name_chars@.len() - k,
            {
                let c = name_chars[k];
                if c == ' ' || c == '\t' || c == '\n' || c == '\r' || c == '\u{b}' || c
                    == '\u{c}' {
                    whitespace_free = false;
                }
                k = k + 1;
            }
            if name_parts.len() == 2 && name.as_str().is_ascii() && whitespace_free {
                proof {
                    assert(split_char(name@, '/').len() == 2);
                }
                name.clone()
            } else {
                return Err(
                    PushError::Configuration(
                        "The argument `--name` must be in the format of `owner-name/flake-name` and cannot contain whitespace or other special characters".to_owned(),
                    ),
                );
            }
        },
        None => {
            let combined = project_owner.clone().concat("/").concat(project_name.as_str());
            proof {
                reveal_strlit("/");
                assert("/"@ =~= seq!['/']);
                assert(combined@ =~= spec_project_owner(repository@) + seq!['/']
                    + spec_project_name(repository@, subgroup_renaming_explicitly_disabled));
                // The derived name holds exactly one separator: both
                // halves are free of `/`.
                lemma_split_char_parts_free(repository@, '/');
                let owner_seq = spec_project_owner(repository@);
                let project_seq = spec_project_name(
                    repository@,
                    subgroup_renaming_explicitly_disabled,
                );
                assert(!project_seq.contains('/')) by {
                    if subgroup_renaming_explicitly_disabled {
                        assert(project_seq == split_char(repository@, '/')[1]);
                    } else {
                        let tail = split_char(repository@, '/').drop_first();
                        assert(forall|i: int|
                            0 <= i < tail.len() ==> !(#[trigger] tail[i]).contains('/')) by {
                            assert(forall|i: int|
                                0 <= i < tail.len() ==> tail[i] == split_char(
                                    repository@,
                                    '/',
                                )[i + 1]);
                        }
                        lemma_join_char_free(tail, '-', '/');
                    }
                }
                lemma_split_char_peel(owner_seq, project_seq, '/');
                lemma_split_char_whole(project_seq, '/');
                assert(split_char(combined@, '/').len() == 2);
            }
            combined
        },
    };
    Ok((upload_name, project_owner, project_name))
}

/// Law: with subgroup renaming enabled, a repository formed of an
/// owner and one or more further `/`-free segments resolves to that
/// owner and to the remaining segments joined with `-`; with renaming
/// disabled, more than one remaining segment is rejected.
pub proof fn lemma_subgroup_flattening(segments: Seq<Seq<char>>)
    requires
        segments.len() >= 2,
        forall|i: int| 0 <= i < segments.len() ==> !(#[trigger] segments[i]).contains('/'),
    ensures
        repo_ok(join_char(segments, '/'), false),
        spec_project_owner(join_char(segments, '/')) == segments[0],
        spec_project_name(join_char(segments, '/'), false) == join_char(
            segments.drop_first(),
            '-',
        ),
        segments.len() > 2 ==> !repo_ok(join_char(segments, '/'), true),
{
    lemma_split_join(segments, '/');
}

} // verus!
