//! Expansion of placeholders in configured paths.
//!
//! A configured path may name well-known directories by placeholders:
//! `<home>`, `<appdata>`, `<localappdata>`, `<documents>`, `<desktop>`,
//! `<downloads>`, `<temp>`, `<programfiles>` and `<programfilesx86>`. Each
//! placeholder whose directory is known is replaced by it, in that order, and
//! every `/` then becomes `\`.
use vstd::prelude::*;

use crate::platform;
use crate::text::{contains_seq, lemma_replace_absent, occurs_at, replace_all, replace_str};

verus! {

/// The directories that the placeholders stand for; `None` where a directory
/// is unknown, in which case its placeholder stays as written.
pub struct Placeholders {
    pub home: Option<String>,
    pub appdata: Option<String>,
    pub localappdata: Option<String>,
    pub documents: Option<String>,
    pub desktop: Option<String>,
    pub downloads: Option<String>,
    pub temp: Option<String>,
    pub program_files: Option<String>,
    pub program_files_x86: Option<String>,
}

/// Replaces `pat` by the value when there is one.
pub open spec fn substitute(s: Seq<char>, pat: Seq<char>, value: Option<String>) -> Seq<char> {
    match value {
        Some(v) => replace_all(s, pat, v@),
        None => s,
    }
}

/// The expansion of `input` under the given placeholder values.
pub open spec fn expansion(input: Seq<char>, v: Placeholders) -> Seq<char> {
    let s1 = substitute(input, "<home>"@, v.home);
    let s2 = substitute(s1, "<appdata>"@, v.appdata);
    let s3 = substitute(s2, "<localappdata>"@, v.localappdata);
    let s4 = substitute(s3, "<documents>"@, v.documents);
    let s5 = substitute(s4, "<desktop>"@, v.desktop);
    let s6 = substitute(s5, "<downloads>"@, v.downloads);
    let s7 = substitute(s6, "<temp>"@, v.temp);
    let s8 = substitute(s7, "<programfiles>"@, v.program_files);
    let s9 = substitute(s8, "<programfilesx86>"@, v.program_files_x86);
    replace_all(s9, "/"@, "\\"@)
}

/// A path that names no placeholder only has its slashes turned into
/// backslashes, whatever the placeholder values.
pub proof fn lemma_expansion_without_placeholders(input: Seq<char>, v: Placeholders)
    requires
        !contains_seq(input, "<home>"@),
        !contains_seq(input, "<appdata>"@),
        !contains_seq(input, "<localappdata>"@),
        !contains_seq(input, "<documents>"@),
        !contains_seq(input, "<desktop>"@),
        !contains_seq(input, "<downloads>"@),
        !contains_seq(input, "<temp>"@),
        !contains_seq(input, "<programfiles>"@),
        !contains_seq(input, "<programfilesx86>"@),
    ensures
        expansion(input, v) == replace_all(input, "/"@, "\\"@),
{
    reveal_strlit("<home>");
    reveal_strlit("<appdata>");
    reveal_strlit("<localappdata>");
    reveal_strlit("<documents>");
    reveal_strlit("<desktop>");
    reveal_strlit("<downloads>");
    reveal_strlit("<temp>");
    reveal_strlit("<programfiles>");
    reveal_strlit("<programfilesx86>");
    lemma_substitute_absent(input, "<home>"@, v.home);
    lemma_substitute_absent(input, "<appdata>"@, v.appdata);
    lemma_substitute_absent(input, "<localappdata>"@, v.localappdata);
    lemma_substitute_absent(input, "<documents>"@, v.documents);
    lemma_substitute_absent(input, "<desktop>"@, v.desktop);
    lemma_substitute_absent(input, "<downloads>"@, v.downloads);
    lemma_substitute_absent(input, "<temp>"@, v.temp);
    lemma_substitute_absent(input, "<programfiles>"@, v.program_files);
    lemma_substitute_absent(input, "<programfilesx86>"@, v.program_files_x86);
}

proof fn lemma_substitute_absent(s: Seq<char>, pat: Seq<char>, value: Option<String>)
    requires
        pat.len() > 0,
        !contains_seq(s, pat),
    ensures
        substitute(s, pat, value) == s,
{
    if let Some(v) = value {
        lemma_replace_absent(s, pat, v@);
    }
}

/// The placeholder at position `k` of the documented order.
pub open spec fn placeholder(k: int) -> Seq<char> {
    if k == 0 {
        "<home>"@
    } else if k == 1 {
        "<appdata>"@
    } else if k == 2 {
        "<localappdata>"@
    } else if k == 3 {
        "<documents>"@
    } else if k == 4 {
        "<desktop>"@
    } else if k == 5 {
        "<downloads>"@
    } else if k == 6 {
        "<temp>"@
    } else if k == 7 {
        "<programfiles>"@
    } else {
        "<programfilesx86>"@
    }
}

/// The value of the placeholder at position `k`.
pub open spec fn placeholder_value(v: Placeholders, k: int) -> Option<String> {
    if k == 0 {
        v.home
    } else if k == 1 {
        v.appdata
    } else if k == 2 {
        v.localappdata
    } else if k == 3 {
        v.documents
    } else if k == 4 {
        v.desktop
    } else if k == 5 {
        v.downloads
    } else if k == 6 {
        v.temp
    } else if k == 7 {
        v.program_files
    } else {
        v.program_files_x86
    }
}

/// The text holds no `<`, so it names no placeholder.
pub open spec fn has_no_angle(s: Seq<char>) -> bool {
    forall|i: int| 0 <= i < s.len() ==> s[i] != '<'
}

/// A placeholder starts with `<` and holds no other `<`.
proof fn lemma_placeholder_shape(p: Seq<char>)
    requires
        p == "<home>"@ || p == "<appdata>"@ || p == "<localappdata>"@ || p == "<documents>"@ || p
            == "<desktop>"@ || p == "<downloads>"@ || p == "<temp>"@ || p == "<programfiles>"@
            || p == "<programfilesx86>"@,
    ensures
        p.len() > 0,
        p[0] == '<',
        forall|i: int| 0 < i < p.len() ==> p[i] != '<',
{
    reveal_strlit("<home>");
    reveal_strlit("<appdata>");
    reveal_strlit("<localappdata>");
    reveal_strlit("<documents>");
    reveal_strlit("<desktop>");
    reveal_strlit("<downloads>");
    reveal_strlit("<temp>");
    reveal_strlit("<programfiles>");
    reveal_strlit("<programfilesx86>");
}

/// Text without `<` holds no placeholder.
proof fn lemma_no_angle_absent(s: Seq<char>, q: Seq<char>)
    requires
        has_no_angle(s),
        q.len() > 0,
        q[0] == '<',
    ensures
        !contains_seq(s, q),
{
    if contains_seq(s, q) {
        let i = choose|i: int| occurs_at(s, i, q);
        assert(s.subrange(i, i + q.len())[0] == s[i]);
    }
}

/// In a placeholder followed by text without `<`, another placeholder `q`
/// that differs from it at position `d` does not occur.
proof fn lemma_differs_absent(p: Seq<char>, rest: Seq<char>, q: Seq<char>, d: int)
    requires
        p.len() > 0,
        p[0] == '<',
        forall|i: int| 0 < i < p.len() ==> p[i] != '<',
        has_no_angle(rest),
        q.len() > 0,
        q[0] == '<',
        0 <= d < q.len(),
        d < p.len(),
        p[d] != q[d],
    ensures
        !contains_seq(p + rest, q),
{
    let s = p + rest;
    if contains_seq(s, q) {
        let i = choose|i: int| occurs_at(s, i, q);
        assert(s.subrange(i, i + q.len())[0] == s[i]);
        if i > 0 {
            if i < p.len() {
                assert(s[i] == p[i]);
            } else {
                assert(s[i] == rest[i - p.len()]);
            }
        }
        assert(s.subrange(i, i + q.len())[d] == s[d]);
    }
}

/// Replacing a placeholder at the head of text without `<` replaces just it.
proof fn lemma_replace_head(p: Seq<char>, rest: Seq<char>, val: Seq<char>)
    requires
        p.len() > 0,
        p[0] == '<',
        has_no_angle(rest),
    ensures
        replace_all(p + rest, p, val) == val + rest,
{
    let s = p + rest;
    assert(s.take(p.len() as int) =~= p);
    assert(s.skip(p.len() as int) =~= rest);
    lemma_no_angle_absent(rest, p);
    lemma_replace_absent(rest, p, val);
}

/// Every placeholder whose value is known is replaced by it: a path that
/// starts with the placeholder at position `k` and goes on with text that
/// names no placeholder expands to the placeholder's value followed by that
/// text, with every `/` turned into `\`, whatever the other values are.
pub proof fn lemma_known_placeholder_expands(v: Placeholders, k: int, rest: Seq<char>)
    requires
        0 <= k < 9,
        placeholder_value(v, k) is Some,
        has_no_angle(rest),
        has_no_angle(placeholder_value(v, k)->0@),
    ensures
        expansion(placeholder(k) + rest, v) == replace_all(
            placeholder_value(v, k)->0@ + rest,
            "/"@,
            "\\"@,
        ),
{
    let val = placeholder_value(v, k)->0@;
    assert(has_no_angle(val + rest)) by {
        assert forall|i: int| 0 <= i < (val + rest).len() implies (val + rest)[i] != '<' by {
            if i < val.len() {
                assert((val + rest)[i] == val[i]);
            } else {
                assert((val + rest)[i] == rest[i - val.len()]);
            }
        }
    }
    reveal_strlit("<home>");
    reveal_strlit("<appdata>");
    reveal_strlit("<localappdata>");
    reveal_strlit("<documents>");
    reveal_strlit("<desktop>");
    reveal_strlit("<downloads>");
    reveal_strlit("<temp>");
    reveal_strlit("<programfiles>");
    reveal_strlit("<programfilesx86>");
    if k == 0 {
        let pk = "<home>"@;
        let s0 = pk + rest;
        lemma_placeholder_shape(pk);
        lemma_replace_head(pk, rest, val);
        lemma_no_angle_absent(val + rest, "<appdata>"@);
        lemma_substitute_absent(val + rest, "<appdata>"@, v.appdata);
        lemma_no_angle_absent(val + rest, "<localappdata>"@);
        lemma_substitute_absent(val + rest, "<localappdata>"@, v.localappdata);
        lemma_no_angle_absent(val + rest, "<documents>"@);
        lemma_substitute_absent(val + rest, "<documents>"@, v.documents);
        lemma_no_angle_absent(val + rest, "<desktop>"@);
        lemma_substitute_absent(val + rest, "<desktop>"@, v.desktop);
        lemma_no_angle_absent(val + rest, "<downloads>"@);
        lemma_substitute_absent(val + rest, "<downloads>"@, v.downloads);
        lemma_no_angle_absent(val + rest, "<temp>"@);
        lemma_substitute_absent(val + rest, "<temp>"@, v.temp);
        lemma_no_angle_absent(val + rest, "<programfiles>"@);
        lemma_substitute_absent(val + rest, "<programfiles>"@, v.program_files);
        lemma_no_angle_absent(val + rest, "<programfilesx86>"@);
        lemma_substitute_absent(val + rest, "<programfilesx86>"@, v.program_files_x86);
    } else if k == 1 {
        let pk = "<appdata>"@;
        let s0 = pk + rest;
        lemma_placeholder_shape(pk);
        assert(pk[1] != "<home>"@[1]);
        lemma_differs_absent(pk, rest, "<home>"@, 1);
        lemma_substitute_absent(s0, "<home>"@, v.home);
        lemma_replace_head(pk, rest, val);
        lemma_no_angle_absent(val + rest, "<localappdata>"@);
        lemma_substitute_absent(val + rest, "<localappdata>"@, v.localappdata);
        lemma_no_angle_absent(val + rest, "<documents>"@);
        lemma_substitute_absent(val + rest, "<documents>"@, v.documents);
        lemma_no_angle_absent(val + rest, "<desktop>"@);
        lemma_substitute_absent(val + rest, "<desktop>"@, v.desktop);
        lemma_no_angle_absent(val + rest, "<downloads>"@);
        lemma_substitute_absent(val + rest, "<downloads>"@, v.downloads);
        lemma_no_angle_absent(val + rest, "<temp>"@);
        lemma_substitute_absent(val + rest, "<temp>"@, v.temp);
        lemma_no_angle_absent(val + rest, "<programfiles>"@);
        lemma_substitute_absent(val + rest, "<programfiles>"@, v.program_files);
        lemma_no_angle_absent(val + rest, "<programfilesx86>"@);
        lemma_substitute_absent(val + rest, "<programfilesx86>"@, v.program_files_x86);
    } else if k == 2 {
        let pk = "<localappdata>"@;
        let s0 = pk + rest;
        lemma_placeholder_shape(pk);
        assert(pk[1] != "<home>"@[1]);
        lemma_differs_absent(pk, rest, "<home>"@, 1);
        lemma_substitute_absent(s0, "<home>"@, v.home);
        assert(pk[1] != "<appdata>"@[1]);
        lemma_differs_absent(pk, rest, "<appdata>"@, 1);
        lemma_substitute_absent(s0, "<appdata>"@, v.appdata);
        lemma_replace_head(pk, rest, val);
        lemma_no_angle_absent(val + rest, "<documents>"@);
        lemma_substitute_absent(val + rest, "<documents>"@, v.documents);
        lemma_no_angle_absent(val + rest, "<desktop>"@);
        lemma_substitute_absent(val + rest, "<desktop>"@, v.desktop);
        lemma_no_angle_absent(val + rest, "<downloads>"@);
        lemma_substitute_absent(val + rest, "<downloads>"@, v.downloads);
        lemma_no_angle_absent(val + rest, "<temp>"@);
        lemma_substitute_absent(val + rest, "<temp>"@, v.temp);
        lemma_no_angle_absent(val + rest, "<programfiles>"@);
        lemma_substitute_absent(val + rest, "<programfiles>"@, v.program_files);
        lemma_no_angle_absent(val + rest, "<programfilesx86>"@);
        lemma_substitute_absent(val + rest, "<programfilesx86>"@, v.program_files_x86);
    } else if k == 3 {
        let pk = "<documents>"@;
        let s0 = pk + rest;
        lemma_placeholder_shape(pk);
        assert(pk[1] != "<home>"@[1]);
        lemma_differs_absent(pk, rest, "<home>"@, 1);
        lemma_substitute_absent(s0, "<home>"@, v.home);
        assert(pk[1] != "<appdata>"@[1]);
        lemma_differs_absent(pk, rest, "<appdata>"@, 1);
        lemma_substitute_absent(s0, "<appdata>"@, v.appdata);
        assert(pk[1] != "<localappdata>"@[1]);
        lemma_differs_absent(pk, rest, "<localappdata>"@, 1);
        lemma_substitute_absent(s0, "<localappdata>"@, v.localappdata);
        lemma_replace_head(pk, rest, val);
        lemma_no_angle_absent(val + rest, "<desktop>"@);
        lemma_substitute_absent(val + rest, "<desktop>"@, v.desktop);
        lemma_no_angle_absent(val + rest, "<downloads>"@);
        lemma_substitute_absent(val + rest, "<downloads>"@, v.downloads);
        lemma_no_angle_absent(val + rest, "<temp>"@);
        lemma_substitute_absent(val + rest, "<temp>"@, v.temp);
        lemma_no_angle_absent(val + rest, "<programfiles>"@);
        lemma_substitute_absent(val + rest, "<programfiles>"@, v.program_files);
        lemma_no_angle_absent(val + rest, "<programfilesx86>"@);
        lemma_substitute_absent(val + rest, "<programfilesx86>"@, v.program_files_x86);
    } else if k == 4 {
        let pk = "<desktop>"@;
        let s0 = pk + rest;
        lemma_placeholder_shape(pk);
        assert(pk[1] != "<home>"@[1]);
        lemma_differs_absent(pk, rest, "<home>"@, 1);
        lemma_substitute_absent(s0, "<home>"@, v.home);
        assert(pk[1] != "<appdata>"@[1]);
        lemma_differs_absent(pk, rest, "<appdata>"@, 1);
        lemma_substitute_absent(s0, "<appdata>"@, v.appdata);
        assert(pk[1] != "<localappdata>"@[1]);
        lemma_differs_absent(pk, rest, "<localappdata>"@, 1);
        lemma_substitute_absent(s0, "<localappdata>"@, v.localappdata);
        assert(pk[2] != "<documents>"@[2]);
        lemma_differs_absent(pk, rest, "<documents>"@, 2);
        lemma_substitute_absent(s0, "<documents>"@, v.documents);
        lemma_replace_head(pk, rest, val);
        lemma_no_angle_absent(val + rest, "<downloads>"@);
        lemma_substitute_absent(val + rest, "<downloads>"@, v.downloads);
        lemma_no_angle_absent(val + rest, "<temp>"@);
        lemma_substitute_absent(val + rest, "<temp>"@, v.temp);
        lemma_no_angle_absent(val + rest, "<programfiles>"@);
        lemma_substitute_absent(val + rest, "<programfiles>"@, v.program_files);
        lemma_no_angle_absent(val + rest, "<programfilesx86>"@);
        lemma_substitute_absent(val + rest, "<programfilesx86>"@, v.program_files_x86);
    } else if k == 5 {
        let pk = "<downloads>"@;
        let s0 = pk + rest;
        lemma_placeholder_shape(pk);
        assert(pk[1] != "<home>"@[1]);
        lemma_differs_absent(pk, rest, "<home>"@, 1);
        lemma_substitute_absent(s0, "<home>"@, v.home);
        assert(pk[1] != "<appdata>"@[1]);
        lemma_differs_absent(pk, rest, "<appdata>"@, 1);
        lemma_substitute_absent(s0, "<appdata>"@, v.appdata);
        assert(pk[1] != "<localappdata>"@[1]);
        lemma_differs_absent(pk, rest, "<localappdata>"@, 1);
        lemma_substitute_absent(s0, "<localappdata>"@, v.localappdata);
        assert(pk[3] != "<documents>"@[3]);
        lemma_differs_absent(pk, rest, "<documents>"@, 3);
        lemma_substitute_absent(s0, "<documents>"@, v.documents);
        assert(pk[2] != "<desktop>"@[2]);
        lemma_differs_absent(pk, rest, "<desktop>"@, 2);
        lemma_substitute_absent(s0, "<desktop>"@, v.desktop);
        lemma_replace_head(pk, rest, val);
        lemma_no_angle_absent(val + rest, "<temp>"@);
        lemma_substitute_absent(val + rest, "<temp>"@, v.temp);
        lemma_no_angle_absent(val + rest, "<programfiles>"@);
        lemma_substitute_absent(val + rest, "<programfiles>"@, v.program_files);
        lemma_no_angle_absent(val + rest, "<programfilesx86>"@);
        lemma_substitute_absent(val + rest, "<programfilesx86>"@, v.program_files_x86);
    } else if k == 6 {
        let pk = "<temp>"@;
        let s0 = pk + rest;
        lemma_placeholder_shape(pk);
        assert(pk[1] != "<home>"@[1]);
        lemma_differs_absent(pk, rest, "<home>"@, 1);
        lemma_substitute_absent(s0, "<home>"@, v.home);
        assert(pk[1] != "<appdata>"@[1]);
        lemma_differs_absent(pk, rest, "<appdata>"@, 1);
        lemma_substitute_absent(s0, "<appdata>"@, v.appdata);
        assert(pk[1] != "<localappdata>"@[1]);
        lemma_differs_absent(pk, rest, "<localappdata>"@, 1);
        lemma_substitute_absent(s0, "<localappdata>"@, v.localappdata);
        assert(pk[1] != "<documents>"@[1]);
        lemma_differs_absent(pk, rest, "<documents>"@, 1);
        lemma_substitute_absent(s0, "<documents>"@, v.documents);
        assert(pk[1] != "<desktop>"@[1]);
        lemma_differs_absent(pk, rest, "<desktop>"@, 1);
        lemma_substitute_absent(s0, "<desktop>"@, v.desktop);
        assert(pk[1] != "<downloads>"@[1]);
        lemma_differs_absent(pk, rest, "<downloads>"@, 1);
        lemma_substitute_absent(s0, "<downloads>"@, v.downloads);
        lemma_replace_head(pk, rest, val);
        lemma_no_angle_absent(val + rest, "<programfiles>"@);
        lemma_substitute_absent(val + rest, "<programfiles>"@, v.program_files);
        lemma_no_angle_absent(val + rest, "<programfilesx86>"@);
        lemma_substitute_absent(val + rest, "<programfilesx86>"@, v.program_files_x86);
    } else if k == 7 {
        let pk = "<programfiles>"@;
        let s0 = pk + rest;
        lemma_placeholder_shape(pk);
        assert(pk[1] != "<home>"@[1]);
        lemma_differs_absent(pk, rest, "<home>"@, 1);
        lemma_substitute_absent(s0, "<home>"@, v.home);
        assert(pk[1] != "<appdata>"@[1]);
        lemma_differs_absent(pk, rest, "<appdata>"@, 1);
        lemma_substitute_absent(s0, "<appdata>"@, v.appdata);
        assert(pk[1] != "<localappdata>"@[1]);
        lemma_differs_absent(pk, rest, "<localappdata>"@, 1);
        lemma_substitute_absent(s0, "<localappdata>"@, v.localappdata);
        assert(pk[1] != "<documents>"@[1]);
        lemma_differs_absent(pk, rest, "<documents>"@, 1);
        lemma_substitute_absent(s0, "<documents>"@, v.documents);
        assert(pk[1] != "<desktop>"@[1]);
        lemma_differs_absent(pk, rest, "<desktop>"@, 1);
        lemma_substitute_absent(s0, "<desktop>"@, v.desktop);
        assert(pk[1] != "<downloads>"@[1]);
        lemma_differs_absent(pk, rest, "<downloads>"@, 1);
        lemma_substitute_absent(s0, "<downloads>"@, v.downloads);
        assert(pk[1] != "<temp>"@[1]);
        lemma_differs_absent(pk, rest, "<temp>"@, 1);
        lemma_substitute_absent(s0, "<temp>"@, v.temp);
        lemma_replace_head(pk, rest, val);
        lemma_no_angle_absent(val + rest, "<programfilesx86>"@);
        lemma_substitute_absent(val + rest, "<programfilesx86>"@, v.program_files_x86);
    } else {
        let pk = "<programfilesx86>"@;
        let s0 = pk + rest;
        lemma_placeholder_shape(pk);
        assert(pk[1] != "<home>"@[1]);
        lemma_differs_absent(pk, rest, "<home>"@, 1);
        lemma_substitute_absent(s0, "<home>"@, v.home);
        assert(pk[1] != "<appdata>"@[1]);
        lemma_differs_absent(pk, rest, "<appdata>"@, 1);
        lemma_substitute_absent(s0, "<appdata>"@, v.appdata);
        assert(pk[1] != "<localappdata>"@[1]);
        lemma_differs_absent(pk, rest, "<localappdata>"@, 1);
        lemma_substitute_absent(s0, "<localappdata>"@, v.localappdata);
        assert(pk[1] != "<documents>"@[1]);
        lemma_differs_absent(pk, rest, "<documents>"@, 1);
        lemma_substitute_absent(s0, "<documents>"@, v.documents);
        assert(pk[1] != "<desktop>"@[1]);
        lemma_differs_absent(pk, rest, "<desktop>"@, 1);
        lemma_substitute_absent(s0, "<desktop>"@, v.desktop);
        assert(pk[1] != "<downloads>"@[1]);
        lemma_differs_absent(pk, rest, "<downloads>"@, 1);
        lemma_substitute_absent(s0, "<downloads>"@, v.downloads);
        assert(pk[1] != "<temp>"@[1]);
        lemma_differs_absent(pk, rest, "<temp>"@, 1);
        lemma_substitute_absent(s0, "<temp>"@, v.temp);
        assert(pk[13] != "<programfiles>"@[13]);
        lemma_differs_absent(pk, rest, "<programfiles>"@, 13);
        lemma_substitute_absent(s0, "<programfiles>"@, v.program_files);
        lemma_replace_head(pk, rest, val);
    }
}

/// The expansion of a leading `~` by the home directory `home`.
pub open spec fn home_expansion(path: Seq<char>, home: Option<String>) -> Seq<char> {
    match home {
        Some(h) => if path == seq!['~'] {
            h@
        } else if path.len() >= 2 && path[0] == '~' && (path[1] == '/' || path[1] == '\\') {
            platform::joined_path(h@, path.skip(2))
        } else {
            path
        },
        None => path,
    }
}

fn substitute_exec(s: String, pat: &str, value: &Option<String>) -> (res: String)
    requires
        pat@.len() > 0,
    ensures
        res@ == substitute(s@, pat@, *value),
{
    match value {
        Some(v) => replace_str(s.as_str(), pat, v.as_str()),
        None => s,
    }
}

/// What the process environment says, as read by the caller: the two
/// Program Files directories (the `ProgramFiles` and `ProgramFiles(x86)`
/// variables) and the temporary directory; `None` where it says nothing.
pub struct Environment {
    pub program_files: Option<String>,
    pub program_files_x86: Option<String>,
    pub temp: Option<String>,
}

impl Placeholders {
    /// The placeholder values of this machine: the directories that `dirs`
    /// reports, and the three that the process environment decides, as given
    /// by the caller.
    pub fn system(env: &Environment) -> (res: Placeholders)
        ensures
            res.program_files == env.program_files,
            res.program_files_x86 == env.program_files_x86,
            res.temp == env.temp,
    {
        Placeholders {
            home: platform::home_dir(),
            appdata: platform::data_dir(),
            localappdata: platform::data_local_dir(),
            documents: platform::document_dir(),
            desktop: platform::desktop_dir(),
            downloads: platform::download_dir(),
            temp: env.temp.clone(),
            program_files: env.program_files.clone(),
            program_files_x86: env.program_files_x86.clone(),
        }
    }
}

/// The placeholder values hold what the environment says.
pub open spec fn from_environment(v: Placeholders, env: Environment) -> bool {
    &&& v.program_files == env.program_files
    &&& v.program_files_x86 == env.program_files_x86
    &&& v.temp == env.temp
}

/// Path expansion.
pub struct PathResolver;

impl PathResolver {
    /// Replaces every placeholder of `input` whose value is known, in the
    /// documented order, then turns every `/` into `\`.
    pub fn replace_placeholders(input: &str, values: &Placeholders) -> (res: String)
        ensures
            res@ == expansion(input@, *values),
    {
        proof {
            reveal_strlit("<home>");
            reveal_strlit("<appdata>");
            reveal_strlit("<localappdata>");
            reveal_strlit("<documents>");
            reveal_strlit("<desktop>");
            reveal_strlit("<downloads>");
            reveal_strlit("<temp>");
            reveal_strlit("<programfiles>");
            reveal_strlit("<programfilesx86>");
            reveal_strlit("/");
        }
        let s = String::from_str(input);
        let s = substitute_exec(s, "<home>", &values.home);
        let s = substitute_exec(s, "<appdata>", &values.appdata);
        let s = substitute_exec(s, "<localappdata>", &values.localappdata);
        let s = substitute_exec(s, "<documents>", &values.documents);
        let s = substitute_exec(s, "<desktop>", &values.desktop);
        let s = substitute_exec(s, "<downloads>", &values.downloads);
        let s = substitute_exec(s, "<temp>", &values.temp);
        let s = substitute_exec(s, "<programfiles>", &values.program_files);
        let s = substitute_exec(s, "<programfilesx86>", &values.program_files_x86);
        replace_str(s.as_str(), "/", "\\")
    }

    /// Expands every placeholder of `path` whose directory is known: the
    /// directories that `dirs` reports, and the Program Files and temporary
    /// directories that the environment `env` gives.
    pub fn expand(path: &str, env: &Environment) -> (res: String)
        ensures
            exists|v: Placeholders|
                from_environment(v, *env) && res@ == #[trigger] expansion(path@, v),
    {
        let values = Placeholders::system(env);
        Self::replace_placeholders(path, &values)
    }

    /// The expanded path when it exists, as the caller has observed.
    pub fn resolve_if_exists(expanded: String, exists: bool) -> (res: Option<String>)
        ensures
            res == (if exists {
                Some(expanded)
            } else {
                None
            }),
    {
        if exists {
            Some(expanded)
        } else {
            None
        }
    }

    /// Expands a leading `~` (alone, or followed by `/` or `\`) by the given
    /// home directory; any other path is returned as it is.
    pub fn expand_home_with(path: &str, home: &Option<String>) -> (res: String)
        ensures
            res@ == home_expansion(path@, *home),
    {
        match home {
            Some(h) => {
                let n = path.unicode_len();
                if n == 1 && path.get_char(0) == '~' {
                    assert(path@ =~= seq!['~']);
                    return h.clone();
                }
                if n >= 2 && path.get_char(0) == '~' && (path.get_char(1) == '/' || path.get_char(1)
                    == '\\') {
                    proof {
                        assert(path@ != seq!['~']);
                    }
                    let rest = path.substring_char(2, n);
                    assert(rest@ =~= path@.skip(2));
                    return platform::path_join(h.as_str(), rest);
                }
                proof {
                    if path@ == seq!['~'] {
                        assert(path@[0] == '~');
                    }
                }
                String::from_str(path)
            },
            None => String::from_str(path),
        }
    }

    /// Expands a leading `~` by the home directory of this machine.
    pub fn expand_home(path: &str) -> (res: String)
        ensures
            exists|h: Option<String>| res@ == #[trigger] home_expansion(path@, h),
    {
        let home = platform::home_dir();
        Self::expand_home_with(path, &home)
    }
}

} // verus!
