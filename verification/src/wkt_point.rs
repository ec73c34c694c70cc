use crate::text::{decimal_text, is_decimal_text, is_digit};
use vstd::prelude::*;
use vstd::string::{StrSliceExecFns, StringExecFns};

verus! {

/// Characters a coordinate number may contain.
pub open spec fn is_num_char(c: char) -> bool {
    is_digit(c) || c == '.' || c == '-' || c == '+'
}

/// First index at or after `i` whose character is not a space.
pub open spec fn skip_sp(s: Seq<char>, i: int) -> int
    decreases s.len() - i,
    when 0 <= i <= s.len()
{
    if i < s.len() && s[i] == ' ' {
        skip_sp(s, i + 1)
    } else {
        i
    }
}

pub proof fn lemma_skip_sp_bounds(s: Seq<char>, i: int)
    requires
        0 <= i <= s.len(),
    ensures
        i <= skip_sp(s, i) <= s.len(),
    decreases s.len() - i,
{
    if i < s.len() && s[i] == ' ' {
        lemma_skip_sp_bounds(s, i + 1);
    }
}

/// First index at or after `i` whose character cannot belong to a number.
pub open spec fn scan_num(s: Seq<char>, i: int) -> int
    decreases s.len() - i,
    when 0 <= i <= s.len()
{
    if i < s.len() && is_num_char(s[i]) {
        scan_num(s, i + 1)
    } else {
        i
    }
}

pub proof fn lemma_scan_num_bounds(s: Seq<char>, i: int)
    requires
        0 <= i <= s.len(),
    ensures
        i <= scan_num(s, i) <= s.len(),
    decreases s.len() - i,
{
    if i < s.len() && is_num_char(s[i]) {
        lemma_scan_num_bounds(s, i + 1);
    }
}

pub open spec fn wkt_keyword() -> Seq<char> {
    seq!['P', 'O', 'I', 'N', 'T']
}

/// What parsing a well-known-text point yields: the longitude and latitude
/// texts of the single point `POINT (x y)`, or nothing for any other text —
/// in particular for any other geometry kind and for more than one geometry.
pub open spec fn parse_wkt_point_spec(s: Seq<char>) -> Option<(Seq<char>, Seq<char>)> {
    if s.len() < 5 || s.subrange(0, 5) != wkt_keyword() {
        None
    } else {
        let i1 = skip_sp(s, 5);
        if !(i1 < s.len() && s[i1] == '(') {
            None
        } else {
            let i2 = skip_sp(s, i1 + 1);
            let j2 = scan_num(s, i2);
            let lon = s.subrange(i2, j2);
            if !decimal_text(lon) {
                None
            } else {
                let i3 = skip_sp(s, j2);
                let j3 = scan_num(s, i3);
                let lat = s.subrange(i3, j3);
                if !decimal_text(lat) {
                    None
                } else {
                    let i4 = skip_sp(s, j3);
                    if i4 < s.len() && s[i4] == ')' && skip_sp(s, i4 + 1) == s.len() {
                        Some((lon, lat))
                    } else {
                        None
                    }
                }
            }
        }
    }
}

/// First non-space index at or after `from`.
fn skip_spaces(s: &str, from: usize) -> (r: usize)
    requires
        from <= s@.len(),
    ensures
        r == skip_sp(s@, from as int),
        from <= r <= s@.len(),
{
    let len = s.unicode_len();
    let mut i: usize = from;
    while i < len && s.get_char(i) == ' '
        invariant
            from <= i <= len,
            len == s@.len(),
            skip_sp(s@, from as int) == skip_sp(s@, i as int),
        decreases len - i,
    {
        proof {
            assert(skip_sp(s@, i as int) == skip_sp(s@, i as int + 1));
        }
        i = i + 1;
    }
    proof {
        assert(skip_sp(s@, i as int) == i);
    }
    i
}

fn num_char(c: char) -> (r: bool)
    ensures
        r == is_num_char(c),
{
    ('0' <= c && c <= '9') || c == '.' || c == '-' || c == '+'
}

/// First index at or after `from` whose character cannot belong to a number.
fn scan_num_chars(s: &str, from: usize) -> (r: usize)
    requires
        from <= s@.len(),
    ensures
        r == scan_num(s@, from as int),
        from <= r <= s@.len(),
{
    let len = s.unicode_len();
    let mut i: usize = from;
    while i < len && num_char(s.get_char(i))
        invariant
            from <= i <= len,
            len == s@.len(),
            scan_num(s@, from as int) == scan_num(s@, i as int),
        decreases len - i,
    {
        proof {
            assert(scan_num(s@, i as int) == scan_num(s@, i as int + 1));
        }
        i = i + 1;
    }
    proof {
        assert(scan_num(s@, i as int) == i);
    }
    i
}

/// Parse a well-known-text point, yielding its longitude and latitude texts.
pub fn parse_wkt_point(s: &str) -> (r: Option<(String, String)>)
    ensures
        match r {
            Some(p) => parse_wkt_point_spec(s@) == Some((p.0@, p.1@)),
            None => parse_wkt_point_spec(s@) is None,
        },
{
    let len = s.unicode_len();
    if len < 5 {
        return None;
    }
    if !(s.get_char(0) == 'P' && s.get_char(1) == 'O' && s.get_char(2) == 'I' && s.get_char(3)
        == 'N' && s.get_char(4) == 'T') {
        proof {
            assert(s@.subrange(0, 5) != wkt_keyword()) by {
                if s@.subrange(0, 5) == wkt_keyword() {
                    assert(s@[0] == wkt_keyword()[0]);
                    assert(s@[1] == wkt_keyword()[1]);
                    assert(s@[2] == wkt_keyword()[2]);
                    assert(s@[3] == wkt_keyword()[3]);
                    assert(s@[4] == wkt_keyword()[4]);
                }
            }
        }
        return None;
    }
    proof {
        assert(s@.subrange(0, 5) =~= wkt_keyword());
    }
    let i1 = skip_spaces(s, 5);
    if !(i1 < len && s.get_char(i1) == '(') {
        return None;
    }
    let i2 = skip_spaces(s, i1 + 1);
    let j2 = scan_num_chars(s, i2);
    let lon = s.substring_char(i2, j2);
    if !is_decimal_text(lon) {
        return None;
    }
    let i3 = skip_spaces(s, j2);
    let j3 = scan_num_chars(s, i3);
    let lat = s.substring_char(i3, j3);
    if !is_decimal_text(lat) {
        return None;
    }
    let i4 = skip_spaces(s, j3);
    if !(i4 < len && s.get_char(i4) == ')') {
        return None;
    }
    if skip_spaces(s, i4 + 1) != len {
        return None;
    }
    Some((String::from_str(lon), String::from_str(lat)))
}

/// The well-known text of a point with the given coordinate texts.
pub open spec fn wkt_point_text(lon: Seq<char>, lat: Seq<char>) -> Seq<char> {
    wkt_keyword() + seq!['('] + lon + seq![' '] + lat + seq![')']
}

/// Write a point's coordinates in well-known-text notation.
pub fn make_wkt_point(lon: &str, lat: &str) -> (r: String)
    ensures
        r@ == wkt_point_text(lon@, lat@),
{
    let mut out = String::from_str("POINT(");
    proof {
        reveal_strlit("POINT(");
        assert(out@ =~= wkt_keyword() + seq!['(']);
    }
    out.append(lon);
    out.append(" ");
    out.append(lat);
    out.append(")");
    proof {
        reveal_strlit(" ");
        reveal_strlit(")");
        assert(" "@ =~= seq![' ']);
        assert(")"@ =~= seq![')']);
        assert(out@ =~= wkt_point_text(lon@, lat@));
    }
    out
}

} // verus!
