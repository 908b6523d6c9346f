//! Process-table scanning: discovering the running tunnel process and
//! the connection file it was started with.
//!
//! The caller runs the process-listing tool and hands the captured
//! output here as text.  A line reports a tunnel when it names the
//! tunnel binary and the config flag and is not the listing of a search
//! command; the config path is the first whitespace-delimited token
//! after the first occurrence of the flag.  Config paths containing
//! spaces are not recognised (a known limitation of this format).

use vstd::prelude::*;
use vstd::string::StrSliceExecFns;
use crate::text::char_vec;
use crate::text::contains_seq;
use crate::text::find_from;
use crate::text::find_pat;
use crate::text::lemma_find_from_some;
use crate::text::lemma_line_end_bounds;
use crate::text::line_end;
use crate::text::line_end_in;
use crate::text::lemma_skip_spaces_bounds;
use crate::text::lemma_skip_spaces_stops;
use crate::text::lemma_token_end_bounds;
use crate::text::match_at_in;
use crate::text::skip_spaces;
use crate::text::skip_spaces_in;
use crate::text::subvec;
use crate::text::token_end;
use crate::text::token_end_in;

verus! {

/// The line names the tunnel binary and the config flag, and is not the
/// listing of a search command.
pub open spec fn line_matches(line: Seq<char>) -> bool {
    &&& contains_seq(line, "/usr/bin/openvpn"@)
    &&& contains_seq(line, "--config"@)
    &&& !contains_seq(line, "grep"@)
}

/// The first whitespace-delimited token after the first occurrence of
/// the config flag, if any token follows it.
pub open spec fn extract_config(line: Seq<char>) -> Option<Seq<char>> {
    match find_from(line, "--config"@, 0) {
        Some(i) => {
            let start = skip_spaces(line, i + "--config"@.len());
            if start >= line.len() {
                None
            } else {
                Some(line.subrange(start, token_end(line, start)))
            }
        },
        None => None,
    }
}

/// What one process-table line contributes: a config path when the line
/// reports a tunnel and a token follows the flag, nothing otherwise.
pub open spec fn line_result(line: Seq<char>) -> Option<Seq<char>> {
    if line_matches(line) {
        extract_config(line)
    } else {
        None
    }
}

/// The contribution of the first reporting line at or after `i`.
pub open spec fn scan_from(s: Seq<char>, i: int) -> Option<Seq<char>>
    decreases s.len() - i,
    when 0 <= i <= s.len()
    via scan_from_decreases
{
    let e = line_end(s, i);
    let res = line_result(s.subrange(i, e));
    if res is Some {
        res
    } else if e >= s.len() {
        None
    } else {
        scan_from(s, e + 1)
    }
}

#[via_fn]
proof fn scan_from_decreases(s: Seq<char>, i: int) {
    lemma_line_end_bounds(s, i);
}

/// The config path of the running tunnel that a whole process listing
/// reports, taken from its first reporting line.
pub open spec fn connected_config_of(s: Seq<char>) -> Option<Seq<char>> {
    scan_from(s, 0)
}

/// The token range that `line_result` selects in `line`, if any.
fn line_token_range(
    line: &Vec<char>,
    openvpn_pat: &Vec<char>,
    config_pat: &Vec<char>,
    grep_pat: &Vec<char>,
) -> (r: Option<(usize, usize)>)
    requires
        openvpn_pat@ == "/usr/bin/openvpn"@,
        config_pat@ == "--config"@,
        grep_pat@ == "grep"@,
    ensures
        r matches Some(t) ==> t.0 <= t.1 <= line@.len() && line_result(line@) == Some(
            line@.subrange(t.0 as int, t.1 as int),
        ),
        r is None ==> line_result(line@) is None,
{
    proof {
        reveal_strlit("/usr/bin/openvpn");
        reveal_strlit("--config");
        reveal_strlit("grep");
    }
    if find_pat(line, openvpn_pat).is_none() {
        return None;
    }
    if find_pat(line, grep_pat).is_some() {
        return None;
    }
    match find_pat(line, config_pat) {
        None => None,
        Some(ci) => {
            let line_len = line.len();
            proof {
                lemma_find_from_some(line@, config_pat@, 0, ci as int);
            }
            let start = skip_spaces_in(line, ci + config_pat.len());
            if start >= line_len {
                None
            } else {
                let end = token_end_in(line, start);
                Some((start, end))
            }
        },
    }
}

/// The config path of the running tunnel that `ps_output` reports, as
/// `connected_config_of` says.
pub fn find_tunnel_config(ps_output: &str) -> (r: Option<String>)
    ensures
        r matches Some(p) ==> connected_config_of(ps_output@) == Some(p@),
        r is None ==> connected_config_of(ps_output@) is None,
{
    let v = char_vec(ps_output);
    let openvpn_pat = char_vec("/usr/bin/openvpn");
    let config_pat = char_vec("--config");
    let grep_pat = char_vec("grep");
    let n = v.len();
    let mut i: usize = 0;
    loop
        invariant
            i <= n,
            n == v@.len(),
            v@ == ps_output@,
            openvpn_pat@ == "/usr/bin/openvpn"@,
            config_pat@ == "--config"@,
            grep_pat@ == "grep"@,
            scan_from(v@, 0) == scan_from(v@, i as int),
        decreases n - i,
    {
        let e = line_end_in(&v, i);
        let line = subvec(&v, i, e);
        match line_token_range(&line, &openvpn_pat, &config_pat, &grep_pat) {
            Some((a, b)) => {
                let r = ps_output.substring_char(i + a, i + b);
                proof {
                    assert(ps_output@.subrange(i + a as int, i + b as int) =~= line@.subrange(
                        a as int,
                        b as int,
                    ));
                }
                return Some(r.to_owned());
            },
            None => {
                if e >= n {
                    return None;
                }
                i = e + 1;
            },
        }
    }
}

/// The whitespace-delimited tokens of `line` at or after `i`.
pub open spec fn tokens_from(line: Seq<char>, i: int) -> Seq<Seq<char>>
    decreases line.len() - i,
    when 0 <= i <= line.len()
    via tokens_from_decreases
{
    let st = skip_spaces(line, i);
    if st >= line.len() {
        Seq::empty()
    } else {
        seq![line.subrange(st, token_end(line, st))] + tokens_from(line, token_end(line, st))
    }
}

#[via_fn]
proof fn tokens_from_decreases(line: Seq<char>, i: int) {
    lemma_skip_spaces_bounds(line, i);
    lemma_skip_spaces_stops(line, i);
    let st = skip_spaces(line, i);
    if st < line.len() {
        lemma_token_end_bounds(line, st + 1);
        assert(token_end(line, st) == token_end(line, st + 1));
    }
}

/// The connection row names a vpn-type connection: it has at least
/// three columns and the third is the vpn type tag.
pub open spec fn row_names_vpn(line: Seq<char>) -> bool {
    let toks = tokens_from(line, 0);
    toks.len() >= 3 && toks[2] == "vpn"@
}

/// The names contributed by the rows at or after `i`: the first
/// column of each row that names a vpn-type connection.
pub open spec fn vpn_names_from(s: Seq<char>, i: int) -> Seq<Seq<char>>
    decreases s.len() - i,
    when 0 <= i <= s.len()
    via vpn_names_from_decreases
{
    let e = line_end(s, i);
    let line = s.subrange(i, e);
    let here: Seq<Seq<char>> = if row_names_vpn(line) {
        seq![tokens_from(line, 0)[0]]
    } else {
        Seq::empty()
    };
    if e >= s.len() {
        here
    } else {
        here + vpn_names_from(s, e + 1)
    }
}

#[via_fn]
proof fn vpn_names_from_decreases(s: Seq<char>, i: int) {
    lemma_line_end_bounds(s, i);
}

/// The vpn-type connection names that a whole connection-table listing
/// shows: its first line is the table header, and each following row
/// contributes its first column when its third column is the vpn type
/// tag.
pub open spec fn vpn_connection_names_of(s: Seq<char>) -> Seq<Seq<char>> {
    let e = line_end(s, 0);
    if e >= s.len() {
        Seq::empty()
    } else {
        vpn_names_from(s, e + 1)
    }
}

/// The range of the row's first column, when the row names a vpn-type
/// connection.
fn row_vpn_name_range(line: &Vec<char>, vpn_pat: &Vec<char>) -> (r: Option<(usize, usize)>)
    requires
        vpn_pat@ == "vpn"@,
    ensures
        r matches Some(t) ==> row_names_vpn(line@) && t.0 <= t.1 <= line@.len() && tokens_from(
            line@,
            0,
        )[0] == line@.subrange(t.0 as int, t.1 as int),
        r is None ==> !row_names_vpn(line@),
{
    proof {
        reveal_with_fuel(tokens_from, 4);
    }
    let n = line.len();
    let st0 = skip_spaces_in(line, 0);
    if st0 >= n {
        return None;
    }
    let e0 = token_end_in(line, st0);
    let st1 = skip_spaces_in(line, e0);
    if st1 >= n {
        return None;
    }
    let e1 = token_end_in(line, st1);
    let st2 = skip_spaces_in(line, e1);
    if st2 >= n {
        return None;
    }
    let e2 = token_end_in(line, st2);
    if e2 - st2 == vpn_pat.len() && match_at_in(line, vpn_pat, st2) {
        Some((st0, e0))
    } else {
        None
    }
}

/// The vpn-type connection names that `output` lists, as
/// `vpn_connection_names_of` says.
pub fn vpn_connection_names(output: &str) -> (r: Vec<String>)
    ensures
        r.deep_view() == vpn_connection_names_of(output@),
{
    let v = char_vec(output);
    let vpn_pat = char_vec("vpn");
    let n = v.len();
    let header_end = line_end_in(&v, 0);
    let mut r: Vec<String> = Vec::new();
    if header_end >= n {
        proof {
            assert(r.deep_view() =~= vpn_connection_names_of(output@));
        }
        return r;
    }
    let mut i: usize = header_end + 1;
    loop
        invariant
            0 < i <= n,
            n == v@.len(),
            v@ == output@,
            vpn_pat@ == "vpn"@,
            vpn_connection_names_of(output@) == r.deep_view() + vpn_names_from(v@, i as int),
        decreases n - i,
    {
        let e = line_end_in(&v, i);
        let line = subvec(&v, i, e);
        let ghost prev = r.deep_view();
        let ghost here: Seq<Seq<char>> = if row_names_vpn(line@) {
            seq![tokens_from(line@, 0)[0]]
        } else {
            Seq::<Seq<char>>::empty()
        };
        match row_vpn_name_range(&line, &vpn_pat) {
            Some((a, b)) => {
                let name = output.substring_char(i + a, i + b);
                r.push(name.to_owned());
                proof {
                    assert(output@.subrange(i + a as int, i + b as int) =~= line@.subrange(
                        a as int,
                        b as int,
                    ));
                    assert(r.deep_view() =~= prev + here);
                }
            },
            None => {
                proof {
                    assert(r.deep_view() =~= prev + here);
                }
            },
        }
        if e >= n {
            proof {
                assert(vpn_names_from(v@, i as int) == here);
                assert(r.deep_view() =~= vpn_connection_names_of(output@));
            }
            return r;
        }
        proof {
            assert(vpn_names_from(v@, i as int) == here + vpn_names_from(v@, e + 1));
            assert(prev + (here + vpn_names_from(v@, e + 1)) =~= (prev + here) + vpn_names_from(
                v@,
                e + 1,
            ));
        }
        i = e + 1;
    }
}

} // verus!
