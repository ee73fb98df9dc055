//! Configuration discovery: the probe-tool choice, the probe invocations
//! that locate the interpreter binary and its configuration files, and the
//! parsing of the comma-separated scanned-files list.
//!
//! Running the probe commands and reading the named files is input/output
//! and belongs to the embedding application; everything here computes on
//! plain values.

use crate::text::{
    first_comma, is_config_space, is_space_char, lemma_first_comma_at, lemma_trim_end_at,
    lemma_trim_start_at, lemma_views_of_push, trim_end_spec, trim_spec, views_of,
};
use vstd::prelude::*;

verus! {

/// The default name of the configuration probe tool.
pub open spec fn default_probe_tool() -> Seq<char> {
    "php-config"@
}

/// The probe-tool name chosen from an optional environment override: the
/// override itself when present and non-empty, the default name otherwise.
pub open spec fn chosen_probe_tool(env_value: Option<Seq<char>>) -> Seq<char> {
    match env_value {
        Some(s) => if s.len() > 0 {
            s
        } else {
            default_probe_tool()
        },
        None => default_probe_tool(),
    }
}

/// Picks the probe-tool name from the value of the `PHP_CONFIG` environment
/// variable, falling back to `php-config` when it is unset or empty.
pub fn probe_tool_name(env_value: Option<String>) -> (r: String)
    ensures
        r@ == chosen_probe_tool(
            match env_value {
                Some(s) => Some(s@),
                None => None,
            },
        ),
{
    match env_value {
        Some(s) => {
            if s.as_str().is_empty() {
                "php-config".to_owned()
            } else {
                s
            }
        },
        None => "php-config".to_owned(),
    }
}

/// The probe invocation that asks the probe tool for the interpreter
/// binary's absolute path: `<tool> --php-binary`.
pub fn php_binary_probe(tool: &str) -> (r: Vec<String>)
    ensures
        r@.len() == 2,
        r@[0]@ == tool@,
        r@[1]@ == "--php-binary"@,
{
    let mut r: Vec<String> = Vec::new();
    r.push(tool.to_owned());
    r.push("--php-binary".to_owned());
    r
}

/// The probe invocation that asks the interpreter binary for the path of
/// its loaded primary configuration file, with error reporting redirected
/// to the error stream.
pub fn loaded_ini_probe(php_bin: &str) -> (r: Vec<String>)
    ensures
        r@.len() == 5,
        r@[0]@ == php_bin@,
        r@[1]@ == "-d"@,
        r@[2]@ == "display_errors=stderr"@,
        r@[3]@ == "-r"@,
        r@[4]@ == "echo php_ini_loaded_file();"@,
{
    let mut r: Vec<String> = Vec::new();
    r.push(php_bin.to_owned());
    r.push("-d".to_owned());
    r.push("display_errors=stderr".to_owned());
    r.push("-r".to_owned());
    r.push("echo php_ini_loaded_file();".to_owned());
    r
}

/// The probe invocation that asks the interpreter binary for its
/// comma-separated list of additional scanned configuration files.
pub fn scanned_ini_probe(php_bin: &str) -> (r: Vec<String>)
    ensures
        r@.len() == 5,
        r@[0]@ == php_bin@,
        r@[1]@ == "-d"@,
        r@[2]@ == "display_errors=stderr"@,
        r@[3]@ == "-r"@,
        r@[4]@ == "echo php_ini_scanned_files();"@,
{
    let mut r: Vec<String> = Vec::new();
    r.push(php_bin.to_owned());
    r.push("-d".to_owned());
    r.push("display_errors=stderr".to_owned());
    r.push("-r".to_owned());
    r.push("echo php_ini_scanned_files();".to_owned());
    r
}

/// Trims the trailing whitespace from a probe command's captured output.
pub fn trim_trailing_whitespace(s: &str) -> (r: String)
    ensures
        r@ == trim_end_spec(s@),
{
    let n = s.unicode_len();
    let mut b: usize = n;
    while b > 0 && is_space_char(s.get_char(b - 1))
        invariant
            b <= n,
            n == s@.len(),
            forall|j: int| b <= j < n ==> is_config_space(s@[j]),
        decreases b,
    {
        b = b - 1;
    }
    proof {
        lemma_trim_end_at(s@, b as int);
    }
    s.substring_char(0, b).to_owned()
}

/// One scanned-list entry cleaned up: kept (trimmed) when anything remains,
/// dropped when it trims to nothing.
pub open spec fn kept_entry(p: Seq<char>) -> Seq<Seq<char>> {
    if trim_spec(p).len() > 0 {
        seq![trim_spec(p)]
    } else {
        Seq::<Seq<char>>::empty()
    }
}

/// The scanned-files list parsed from a comma-separated string: split on
/// commas, each entry trimmed of surrounding whitespace, empty entries
/// dropped, order kept.
pub open spec fn scanned_paths(s: Seq<char>) -> Seq<Seq<char>>
    decreases s.len(),
{
    let i = first_comma(s);
    if 0 <= i < s.len() {
        kept_entry(s.subrange(0, i)) + scanned_paths(s.subrange(i + 1, s.len() as int))
    } else {
        kept_entry(s)
    }
}

/// The entry of `s` between `start` and `end`, trimmed; `None` when nothing
/// remains after trimming.
fn trimmed_segment(s: &str, start: usize, end: usize) -> (r: Option<String>)
    requires
        start <= end <= s@.len(),
    ensures
        ({
            let p = s@.subrange(start as int, end as int);
            match r {
                Some(t) => trim_spec(p).len() > 0 && t@ == trim_spec(p),
                None => trim_spec(p).len() == 0,
            }
        }),
{
    let mut a: usize = start;
    while a < end && is_space_char(s.get_char(a))
        invariant
            start <= a <= end <= s@.len(),
            forall|j: int| start <= j < a ==> is_config_space(s@[j]),
        decreases end - a,
    {
        a = a + 1;
    }
    let mut b: usize = end;
    while b > a && is_space_char(s.get_char(b - 1))
        invariant
            start <= a <= b <= end <= s@.len(),
            forall|j: int| start <= j < a ==> is_config_space(s@[j]),
            a < end ==> !is_config_space(s@[a as int]),
            forall|j: int| b <= j < end ==> is_config_space(s@[j]),
        decreases b,
    {
        b = b - 1;
    }
    proof {
        let p = s@.subrange(start as int, end as int);
        assert(forall|j: int| 0 <= j < a - start ==> p[j] == s@[start + j]);
        lemma_trim_start_at(p, a - start);
        assert(p.subrange(a - start, p.len() as int) =~= s@.subrange(a as int, end as int));
        let q = s@.subrange(a as int, end as int);
        assert(forall|j: int| b - a <= j < q.len() ==> q[j] == s@[a + j]);
        lemma_trim_end_at(q, b - a);
        assert(q.subrange(0, b - a) =~= s@.subrange(a as int, b as int));
    }
    if a < b {
        Some(s.substring_char(a, b).to_owned())
    } else {
        None
    }
}

/// Splits a comma-separated scanned-files list into its entries, trimming
/// surrounding whitespace from each and dropping the ones that are empty
/// after trimming, in list order.
pub fn split_scanned_list(s: &str) -> (r: Vec<String>)
    ensures
        views_of(r@) == scanned_paths(s@),
{
    let n = s.unicode_len();
    let mut r: Vec<String> = Vec::new();
    let mut start: usize = 0;
    let mut i: usize = 0;
    proof {
        assert(s@.subrange(0, n as int) =~= s@);
        assert(views_of(r@) =~= Seq::<Seq<char>>::empty());
        assert(Seq::<Seq<char>>::empty() + scanned_paths(s@) =~= scanned_paths(s@));
    }
    while i < n
        invariant
            start <= i <= n,
            n == s@.len(),
            forall|j: int| start <= j < i ==> s@[j] != ',',
            scanned_paths(s@) == views_of(r@) + scanned_paths(
                s@.subrange(start as int, n as int),
            ),
        decreases n - i,
    {
        if s.get_char(i) == ',' {
            let ghost rest = s@.subrange(start as int, n as int);
            let ghost c = i - start;
            proof {
                assert(forall|j: int| 0 <= j < c ==> rest[j] == s@[start + j] && s@[
                    start + j
                ] != ',');
                assert(rest[c] == s@[i as int]);
                lemma_first_comma_at(rest, c as int);
                assert(rest.subrange(0, c as int) =~= s@.subrange(start as int, i as int));
                assert(rest.subrange(c + 1, rest.len() as int) =~= s@.subrange(
                    i + 1,
                    n as int,
                ));
            }
            let seg = trimmed_segment(s, start, i);
            proof {
                assert(scanned_paths(rest) == kept_entry(s@.subrange(start as int, i as int))
                    + scanned_paths(s@.subrange(i + 1, n as int)));
            }
            match seg {
                Some(t) => {
                    proof {
                        lemma_views_of_push(r@, t);
                        assert(views_of(r@).push(t@) =~= views_of(r@) + kept_entry(
                            s@.subrange(start as int, i as int),
                        ));
                        assert((views_of(r@) + kept_entry(s@.subrange(start as int, i as int)))
                            + scanned_paths(s@.subrange(i + 1, n as int)) =~= views_of(r@)
                            + scanned_paths(rest));
                    }
                    r.push(t);
                },
                None => {
                    proof {
                        assert(views_of(r@) + kept_entry(s@.subrange(start as int, i as int))
                            =~= views_of(r@));
                        assert((views_of(r@) + kept_entry(s@.subrange(start as int, i as int)))
                            + scanned_paths(s@.subrange(i + 1, n as int)) =~= views_of(r@)
                            + scanned_paths(rest));
                    }
                },
            }
            start = i + 1;
        }
        i = i + 1;
    }
    let ghost rest = s@.subrange(start as int, n as int);
    proof {
        assert(forall|j: int| 0 <= j < rest.len() ==> rest[j] == s@[start + j] && s@[
            start + j
        ] != ',');
        lemma_first_comma_at(rest, rest.len() as int);
        assert(scanned_paths(rest) == kept_entry(rest));
    }
    let seg = trimmed_segment(s, start, n);
    match seg {
        Some(t) => {
            proof {
                lemma_views_of_push(r@, t);
                assert(views_of(r@).push(t@) =~= views_of(r@) + kept_entry(rest));
            }
            r.push(t);
        },
        None => {
            proof {
                assert(views_of(r@) + kept_entry(rest) =~= views_of(r@));
            }
        },
    }
    r
}

} // verus!
