//! The decision core of each command.
//!
//! A command reads files, runs the encryption collaborator, walks
//! directories or talks to the clipboard; none of that happens here.  The
//! caller hands in what it read as plain values — a secret's decrypted body,
//! whether a file exists, a directory listing — and the functions here make
//! every decision the command owes: which error on which input, and exactly
//! what to show, store or copy.

use vstd::prelude::*;

use crate::err::AikotError;
use crate::password::{spec_pwgen_describe, spec_pwgen_length, spec_pwgen_ok, PwGen};
use crate::text::{
    contains_str, lemma_spec_lines_nonempty, matches_at, spec_contains, spec_lines, spec_trim,
    split_lines, trim,
};

verus! {

/// The text that a copy command places on the clipboard: the first line of
/// the secret's body, its password.  No body at all is a missing secret; an
/// empty body is a secret with no password to copy.
pub fn cmd_clip(name: &str, contents: Option<&String>) -> (r: Result<String, AikotError>)
    ensures
        contents is None ==> (r matches Err(AikotError::PassNotFound { name: n }) && n@ == name@),
        contents matches Some(c) ==> (c@.len() == 0 ==> (r matches Err(
            AikotError::EmptyPassword { name: n },
        ) && n@ == name@)),
        contents matches Some(c) ==> (c@.len() > 0 ==> (r matches Ok(p) && p@ == spec_lines(
            c@,
        )[0])),
{
    match contents {
        None => Err(AikotError::PassNotFound { name: String::from_str(name) }),
        Some(c) => {
            let lines = split_lines(c.as_str());
            proof {
                assert(lines.deep_view().len() == lines@.len());
                lemma_spec_lines_nonempty(c@);
            }
            if lines.len() == 0 {
                Err(AikotError::EmptyPassword { name: String::from_str(name) })
            } else {
                let p = lines[0].clone();
                proof {
                    assert(p@ == lines.deep_view()[0]);
                }
                Ok(p)
            }
        },
    }
}

/// The body a show command prints: every line of the secret after the
/// first, the password line staying hidden.
pub fn cmd_show(name: &str, contents: Option<&String>) -> (r: Result<Vec<String>, AikotError>)
    ensures
        contents is None ==> (r matches Err(AikotError::PassNotFound { name: n }) && n@ == name@),
        contents matches Some(c) ==> (spec_lines(c@).len() == 0 ==> (r matches Ok(v)
            && v.deep_view() == Seq::<Seq<char>>::empty())),
        contents matches Some(c) ==> (spec_lines(c@).len() > 0 ==> (r matches Ok(v)
            && v.deep_view() == spec_lines(c@).skip(1))),
{
    match contents {
        None => Err(AikotError::PassNotFound { name: String::from_str(name) }),
        Some(c) => {
            let mut lines = split_lines(c.as_str());
            if lines.len() == 0 {
                proof {
                    assert(lines.deep_view() =~= Seq::<Seq<char>>::empty());
                }
                Ok(lines)
            } else {
                let ghost pre = lines.deep_view();
                lines.remove(0);
                proof {
                    assert(lines.deep_view() =~= pre.skip(1));
                }
                Ok(lines)
            }
        },
    }
}

/// Whether a line of a secret's body is its `url:` field.
pub open spec fn is_url_line(l: Seq<char>) -> bool {
    l.len() >= 4 && l.subrange(0, 4) == "url:"@
}

/// The url carried by the first `url:` line among the given lines, with
/// surrounding whitespace removed; `None` where no line carries one.
pub open spec fn spec_find_url(lines: Seq<Seq<char>>) -> Option<Seq<char>>
    decreases lines.len(),
{
    if lines.len() == 0 {
        None
    } else if is_url_line(lines[0]) {
        Some(spec_trim(lines[0].skip(4)))
    } else {
        spec_find_url(lines.skip(1))
    }
}

/// The url of a secret's body: what the first `url:` line after the
/// password line carries.
pub open spec fn spec_url_of(c: Seq<char>) -> Option<Seq<char>> {
    if spec_lines(c).len() == 0 {
        None
    } else {
        spec_find_url(spec_lines(c).skip(1))
    }
}

proof fn lemma_find_url_step(ls: Seq<Seq<char>>, i: int)
    requires
        0 <= i < ls.len(),
        !is_url_line(ls[i]),
    ensures
        spec_find_url(ls.skip(i)) == spec_find_url(ls.skip(i + 1)),
{
    assert(ls.skip(i)[0] == ls[i]);
    assert(ls.skip(i).skip(1) =~= ls.skip(i + 1));
}

/// The url a browse command opens: the trimmed value of the first `url:`
/// line after the password line.  No body is a missing secret; a body with
/// no `url:` line has no url to open.
pub fn cmd_browse(name: &str, contents: Option<&String>) -> (r: Result<String, AikotError>)
    ensures
        contents is None ==> (r matches Err(AikotError::PassNotFound { name: n }) && n@ == name@),
        contents matches Some(c) ==> (spec_url_of(c@) matches Some(u) ==> (r matches Ok(p) && p@
            == u)),
        contents matches Some(c) ==> (spec_url_of(c@) is None ==> (r matches Err(
            AikotError::UrlNotFound { name: n },
        ) && n@ == name@)),
{
    let c = match contents {
        None => {
            return Err(AikotError::PassNotFound { name: String::from_str(name) });
        },
        Some(c) => c,
    };
    let lines = split_lines(c.as_str());
    let ghost ls = lines.deep_view();
    proof {
        assert(ls.len() == lines@.len());
        lemma_spec_lines_nonempty(c@);
    }
    if lines.len() == 0 {
        return Err(AikotError::UrlNotFound { name: String::from_str(name) });
    }
    let n = lines.len();
    let mut i: usize = 1;
    while i < n
        invariant
            contents == Some(c),
            ls == spec_lines(c@),
            c@.len() > 0,
            n == ls.len(),
            ls == lines.deep_view(),
            lines@.len() == n,
            1 <= i <= n,
            spec_find_url(ls.skip(1)) == spec_find_url(ls.skip(i as int)),
        decreases n - i,
    {
        let line = &lines[i];
        let llen = line.as_str().unicode_len();
        proof {
            reveal_strlit("url:");
            assert(line@ == ls[i as int]);
        }
        if llen >= 4 && matches_at(line.as_str(), 0, "url:") {
            let value = line.as_str().substring_char(4, llen);
            let url = trim(value);
            proof {
                assert(value@ =~= ls[i as int].skip(4));
                assert(ls.skip(i as int)[0] == ls[i as int]);
                assert(spec_find_url(ls.skip(i as int)) == Some(spec_trim(ls[i as int].skip(4))));
            }
            return Ok(url);
        }
        proof {
            lemma_find_url_step(ls, i as int);
        }
        i += 1;
    }
    proof {
        assert(ls.skip(i as int) =~= Seq::<Seq<char>>::empty());
        assert(spec_find_url(ls.skip(1)) is None);
    }
    Err(AikotError::UrlNotFound { name: String::from_str(name) })
}

/// Whether a listing entry names a stored secret: it ends in the store's
/// extension, which must be an extension proper — there is a file name
/// character in front of it.
pub open spec fn is_secret_entry(p: Seq<char>) -> bool {
    p.len() > 4 && p.subrange(p.len() - 4, p.len() as int) == ".gpg"@ && p[p.len() - 5] != '/'
}

/// The secret's name: the entry with the extension removed.
pub open spec fn spec_secret_name(p: Seq<char>) -> Seq<char> {
    p.subrange(0, p.len() - 4)
}

/// Whether a secret's name passes the optional pattern filter.
pub open spec fn spec_matches_pattern(name: Seq<char>, pat: Option<Seq<char>>) -> bool {
    match pat {
        None => true,
        Some(q) => spec_contains(name, q),
    }
}

/// The names a listing shows, in order: each entry that names a secret and
/// passes the filter, with its extension removed.
pub open spec fn spec_list(entries: Seq<Seq<char>>, pat: Option<Seq<char>>) -> Seq<Seq<char>>
    decreases entries.len(),
{
    if entries.len() == 0 {
        Seq::empty()
    } else {
        let rest = spec_list(entries.skip(1), pat);
        if is_secret_entry(entries[0]) && spec_matches_pattern(spec_secret_name(entries[0]), pat) {
            seq![spec_secret_name(entries[0])] + rest
        } else {
            rest
        }
    }
}

/// The secrets a list command shows, given the store's file entries
/// (paths relative to the base directory) and an optional substring
/// pattern.
pub fn cmd_list(entries: &Vec<String>, pattern: Option<&String>) -> (r: Vec<String>)
    ensures
        pattern is None ==> r.deep_view() == spec_list(entries.deep_view(), None),
        pattern matches Some(q) ==> r.deep_view() == spec_list(entries.deep_view(), Some(q@)),
{
    let ghost es = entries.deep_view();
    let ghost pat: Option<Seq<char>> = match pattern {
        None => None,
        Some(q) => Some(q@),
    };
    let n = entries.len();
    let mut r: Vec<String> = Vec::new();
    let mut i: usize = n;
    proof {
        assert(es.skip(n as int) =~= Seq::<Seq<char>>::empty());
    }
    while i > 0
        invariant
            n == es.len(),
            es == entries.deep_view(),
            entries@.len() == n,
            i <= n,
            (match pattern {
                None => pat is None,
                Some(q) => pat == Some(q@),
            }),
            r.deep_view() == spec_list(es.skip(i as int), pat),
        decreases i,
    {
        i -= 1;
        let entry = &entries[i];
        let elen = entry.as_str().unicode_len();
        proof {
            reveal_strlit(".gpg");
            assert(entry@ == es[i as int]);
        }
        let is_secret = elen > 4 && matches_at(entry.as_str(), elen - 4, ".gpg") && entry.as_str()
            .get_char(elen - 5) != '/';
        proof {
            assert(is_secret == is_secret_entry(es[i as int]));
        }
        if is_secret {
            let stem = entry.as_str().substring_char(0, elen - 4);
            proof {
                assert(stem@ =~= spec_secret_name(es[i as int]));
            }
            let keep = match pattern {
                None => true,
                Some(q) => contains_str(stem, q.as_str()),
            };
            if keep {
                r.insert(0, String::from_str(stem));
            }
        }
        proof {
            assert(es.skip(i as int).skip(1) =~= es.skip(i + 1));
            assert(es.skip(i as int)[0] == es[i as int]);
            assert(r.deep_view() =~= spec_list(es.skip(i as int), pat));
        }
    }
    proof {
        assert(es.skip(0) =~= es);
    }
    r
}

/// The very first decision of an add command: a secret that already exists
/// must not be overwritten.
pub fn cmd_add_precheck(name: &str, pass_file_exists: bool) -> (r: Result<(), AikotError>)
    ensures
        pass_file_exists ==> (r matches Err(AikotError::PassAlreadyExists { name: n }) && n@
            == name@),
        !pass_file_exists ==> r is Ok,
{
    if pass_file_exists {
        Err(AikotError::PassAlreadyExists { name: String::from_str(name) })
    } else {
        Ok(())
    }
}

/// The password an add command seeds the new secret's body with: one
/// generated under the given policy, or empty where generation was declined.
pub fn cmd_add_password(opwgen: Option<&PwGen>) -> (r: Result<String, AikotError>)
    ensures
        opwgen is None ==> (r matches Ok(p) && p@ == Seq::<char>::empty()),
        opwgen matches Some(g) ==> (r matches Ok(p) ==> p@.len() == spec_pwgen_length(*g)
            && spec_pwgen_ok(*g, p@)),
        opwgen matches Some(g) ==> (r matches Err(e) ==> (e matches AikotError::GenerationFail {
            pwgen,
        } && pwgen@ == spec_pwgen_describe(*g))),
{
    match opwgen {
        None => Ok(String::new()),
        Some(pwgen) => pwgen.try_generate(),
    }
}

/// The final decisions of an add command, after the body came back from the
/// editor: an empty body stores nothing, and a secret that appeared in the
/// meantime — the check-then-act race the store accepts — must not be
/// overwritten.  Only a non-empty body of a still-absent secret is handed
/// to the encryption collaborator.
pub fn cmd_add_body_check(name: &str, new_contents: &String, pass_file_exists: bool) -> (r: Result<
    (),
    AikotError,
>)
    ensures
        new_contents@.len() == 0 ==> (r matches Err(AikotError::EmptyPassword { name: n }) && n@
            == name@),
        new_contents@.len() > 0 && pass_file_exists ==> (r matches Err(
            AikotError::PassAlreadyExists { name: n },
        ) && n@ == name@),
        new_contents@.len() > 0 && !pass_file_exists ==> r is Ok,
{
    if new_contents.as_str().unicode_len() == 0 {
        Err(AikotError::EmptyPassword { name: String::from_str(name) })
    } else if pass_file_exists {
        Err(AikotError::PassAlreadyExists { name: String::from_str(name) })
    } else {
        Ok(())
    }
}

/// The one decision of an edit command after the editor returns: a body
/// that did not change is not re-encrypted.
pub fn cmd_edit_changed(contents: &String, new_contents: &String) -> (r: bool)
    ensures
        r == (contents@ != new_contents@),
{
    !contents.eq(new_contents)
}

} // verus!
