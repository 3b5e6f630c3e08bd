//! The symbol-map parser: each useful line holds a hexadecimal address, one
//! space, and an angle-bracketed symbol name ending in a colon. Unmatched
//! lines are ignored. Reading the file is the driver's business; the parsing
//! itself works on plain byte lines.

use vstd::prelude::*;
use std::collections::HashMap;

verus! {

broadcast use vstd::std_specs::hash::group_hash_axioms;

/// Whether the byte is an ASCII hexadecimal digit.
pub open spec fn is_hex_digit(b: u8) -> bool {
    (0x30 <= b <= 0x39) || (0x41 <= b <= 0x46) || (0x61 <= b <= 0x66)
}

/// The value of an ASCII hexadecimal digit.
pub open spec fn hex_digit_val(b: u8) -> int {
    if 0x30 <= b <= 0x39 {
        b - 0x30
    } else if 0x41 <= b <= 0x46 {
        b - 0x41 + 10
    } else {
        b - 0x61 + 10
    }
}

/// The value of the first `n` digits of `s` read as a hexadecimal numeral.
pub open spec fn hex_prefix_val(s: Seq<u8>, n: int) -> int
    decreases n,
{
    if n <= 0 {
        0
    } else {
        hex_prefix_val(s, n - 1) * 16 + hex_digit_val(s[n - 1])
    }
}

/// A whole byte string read as a hexadecimal numeral.
pub open spec fn hex_val(s: Seq<u8>) -> int {
    hex_prefix_val(s, s.len() as int)
}

/// The string parses as a hexadecimal address: nonempty, digits only, and
/// within the 64-bit range.
pub open spec fn hex_ok(s: Seq<u8>) -> bool {
    &&& s.len() > 0
    &&& forall|j: int| 0 <= j < s.len() ==> is_hex_digit(#[trigger] s[j])
    &&& hex_val(s) <= u64::MAX
}

proof fn lemma_hex_prefix_nonneg(s: Seq<u8>, n: int)
    requires
        forall|j: int| 0 <= j < s.len() ==> is_hex_digit(#[trigger] s[j]),
        n <= s.len(),
    ensures
        hex_prefix_val(s, n) >= 0,
    decreases n,
{
    if n > 0 {
        lemma_hex_prefix_nonneg(s, n - 1);
    }
}

proof fn lemma_hex_prefix_mono(s: Seq<u8>, i: int, j: int)
    requires
        forall|k: int| 0 <= k < s.len() ==> is_hex_digit(#[trigger] s[k]),
        0 <= i <= j <= s.len(),
    ensures
        hex_prefix_val(s, i) <= hex_prefix_val(s, j),
    decreases j - i,
{
    if i < j {
        lemma_hex_prefix_mono(s, i, j - 1);
        lemma_hex_prefix_nonneg(s, j - 1);
    }
}

/// Parse a hexadecimal numeral; `None` when the string is empty, holds a
/// non-digit, or exceeds the 64-bit range.
pub fn parse_hex_u64(s: &[u8]) -> (r: Option<u64>)
    ensures
        r is Some <==> hex_ok(s@),
        r is Some ==> r->0 == hex_val(s@),
{
    if s.len() == 0 {
        return None;
    }
    let mut acc: u64 = 0;
    let mut i: usize = 0;
    while i < s.len()
        invariant
            i <= s@.len(),
            forall|j: int| 0 <= j < i ==> is_hex_digit(#[trigger] s@[j]),
            acc == hex_prefix_val(s@, i as int),
        decreases s@.len() - i,
    {
        let b = s[i];
        let d: u64 = if 0x30 <= b && b <= 0x39 {
            (b - 0x30) as u64
        } else if 0x41 <= b && b <= 0x46 {
            (b - 0x41 + 10) as u64
        } else if 0x61 <= b && b <= 0x66 {
            (b - 0x61 + 10) as u64
        } else {
            proof {
                assert(!is_hex_digit(s@[i as int]));
            }
            return None;
        };
        if acc > (u64::MAX - d) / 16 {
            proof {
                assert(hex_prefix_val(s@, i + 1) > u64::MAX);
                if forall|j: int| 0 <= j < s@.len() ==> is_hex_digit(#[trigger] s@[j]) {
                    lemma_hex_prefix_mono(s@, i + 1, s@.len() as int);
                }
            }
            return None;
        }
        acc = acc * 16 + d;
        i = i + 1;
    }
    Some(acc)
}

/// The position of the first space at or after `i`, or a negative value
/// when there is none.
pub open spec fn find_space(s: Seq<u8>, i: int) -> int
    decreases s.len() - i,
{
    if i < 0 || i >= s.len() {
        -1
    } else if s[i] == 0x20 {
        i
    } else {
        find_space(s, i + 1)
    }
}

proof fn lemma_find_space_skip(s: Seq<u8>, i: int)
    requires
        0 <= i <= s.len(),
        forall|j: int| 0 <= j < i ==> s[j] != 0x20,
    ensures
        find_space(s, 0) == find_space(s, i),
    decreases i,
{
    if i > 0 {
        lemma_find_space_skip(s, i - 1);
        if i - 1 < s.len() {
            assert(s[i - 1] != 0x20);
        }
    }
}

/// What one line yields: the address and the symbol name, if the line is
/// `<hex> <<name>>:` with exactly one space; otherwise nothing.
pub open spec fn parse_line_spec(line: Seq<u8>) -> Option<(u64, Seq<u8>)> {
    let i = find_space(line, 0);
    if i < 0 {
        None
    } else if find_space(line, i + 1) >= 0 {
        None
    } else {
        let addr_part = line.subrange(0, i);
        let name_part = line.subrange(i + 1, line.len() as int);
        if !hex_ok(addr_part) {
            None
        } else if name_part.len() >= 3 && name_part[0] == 0x3C && name_part[name_part.len() - 2]
            == 0x3E && name_part[name_part.len() - 1] == 0x3A {
            Some((hex_val(addr_part) as u64, name_part.subrange(1, name_part.len() - 2)))
        } else {
            None
        }
    }
}

/// Parse one line of the symbol map.
pub fn parse_line(line: &Vec<u8>) -> (r: Option<(u64, Vec<u8>)>)
    ensures
        r is Some <==> parse_line_spec(line@) is Some,
        r is Some ==> (r->0).0 == (parse_line_spec(line@)->0).0 && (r->0).1@ == (parse_line_spec(
            line@,
        )->0).1,
{
    let n = line.len();
    let mut i: usize = 0;
    while i < n && line[i] != 0x20
        invariant
            i <= n,
            n == line@.len(),
            forall|j: int| 0 <= j < i ==> line@[j] != 0x20,
        decreases n - i,
    {
        i = i + 1;
    }
    if i == n {
        proof {
            lemma_find_space_none(line@, 0);
        }
        return None;
    }
    let si = i;
    proof {
        lemma_find_space_between(line@, 0, si as int);
    }
    let mut j: usize = si + 1;
    while j < n && line[j] != 0x20
        invariant
            si < j <= n,
            n == line@.len(),
            forall|k: int| si < k < j ==> line@[k] != 0x20,
        decreases n - j,
    {
        j = j + 1;
    }
    if j < n {
        proof {
            lemma_find_space_between(line@, si as int + 1, j as int);
        }
        return None;
    }
    proof {
        lemma_find_space_none(line@, si + 1);
    }
    let addr_bytes: &[u8] = &line.as_slice()[0..si];
    proof {
        assert(addr_bytes@ == line@.subrange(0, si as int));
    }
    let addr = match parse_hex_u64(addr_bytes) {
        Some(a) => a,
        None => {
            return None;
        },
    };
    // the name part runs from just past the space to the end of the line
    let name_len = n - si - 1;
    if name_len >= 3 && line[si + 1] == 0x3C && line[n - 2] == 0x3E && line[n - 1] == 0x3A {
        let mut name: Vec<u8> = Vec::new();
        let mut k: usize = si + 2;
        while k < n - 2
            invariant
                si + 2 <= k <= n - 2,
                n == line@.len(),
                name@.len() == k - si - 2,
                forall|t: int| 0 <= t < name@.len() ==> name@[t] == line@[si + 2 + t],
            decreases n - k,
        {
            name.push(line[k]);
            k = k + 1;
        }
        proof {
            let np = line@.subrange(si as int + 1, line@.len() as int);
            assert(np[0] == line@[si as int + 1]);
            assert(np[np.len() - 2] == line@[line@.len() - 2]);
            assert(np[np.len() - 1] == line@[line@.len() - 1]);
            assert(name@ =~= np.subrange(1, np.len() - 2));
        }
        Some((addr, name))
    } else {
        proof {
            let np = line@.subrange(si as int + 1, line@.len() as int);
            let e2 = line@[line@.len() - 2];
            let e1 = line@[line@.len() - 1];
            assert(np.len() >= 3 ==> np[0] == line@[si as int + 1] && np[np.len() - 2] == e2
                && np[np.len() - 1] == e1);
        }
        None
    }
}

proof fn lemma_find_space_between(s: Seq<u8>, i: int, j: int)
    requires
        0 <= i <= j < s.len(),
        s[j] == 0x20,
        forall|k: int| i <= k < j ==> s[k] != 0x20,
    ensures
        find_space(s, i) == j,
    decreases j - i,
{
    if i < j {
        lemma_find_space_between(s, i + 1, j);
    }
}

proof fn lemma_find_space_none(s: Seq<u8>, i: int)
    requires
        0 <= i,
        forall|k: int| i <= k < s.len() ==> s[k] != 0x20,
    ensures
        find_space(s, i) < 0,
    decreases s.len() - i,
{
    if i < s.len() {
        lemma_find_space_none(s, i + 1);
    }
}

/// The mapping a whole symbol file yields: later lines win on a repeated
/// address.
pub open spec fn disasm_map_spec(lines: Seq<Seq<u8>>) -> Map<u64, Seq<u8>>
    decreases lines.len(),
{
    if lines.len() == 0 {
        Map::empty()
    } else {
        let m = disasm_map_spec(lines.drop_last());
        match parse_line_spec(lines.last()) {
            Some(p) => m.insert(p.0, p.1),
            None => m,
        }
    }
}

/// Parse a symbol map, one line per entry; lines that do not match the
/// format are ignored.
pub fn parse_disasm(lines: &Vec<Vec<u8>>) -> (r: HashMap<u64, Vec<u8>>)
    ensures
        r@.dom() == disasm_map_spec(lines.deep_view()).dom(),
        forall|a: u64|
            r@.dom().contains(a) ==> #[trigger] r@[a]@ == disasm_map_spec(lines.deep_view())[a],
{
    let mut map: HashMap<u64, Vec<u8>> = HashMap::new();
    let mut i: usize = 0;
    proof {
        assert(lines.deep_view().subrange(0, 0) =~= Seq::<Seq<u8>>::empty());
    }
    while i < lines.len()
        invariant
            i <= lines@.len(),
            lines.deep_view().len() == lines@.len(),
            forall|j: int|
                0 <= j < lines@.len() ==> #[trigger] lines.deep_view()[j] == lines@[j]@,
            vstd::std_specs::hash::obeys_key_model::<u64>(),
            map@.dom() == disasm_map_spec(lines.deep_view().subrange(0, i as int)).dom(),
            forall|a: u64|
                map@.dom().contains(a) ==> #[trigger] map@[a]@ == disasm_map_spec(
                    lines.deep_view().subrange(0, i as int),
                )[a],
        decreases lines@.len() - i,
    {
        let ghost pre = lines.deep_view().subrange(0, i as int);
        let ghost cur = lines.deep_view().subrange(0, i as int + 1);
        proof {
            assert(cur.drop_last() =~= pre);
            assert(cur.last() == lines@[i as int]@);
        }
        match parse_line(&lines[i]) {
            Some(p) => {
                let (a, name) = p;
                map.insert(a, name);
                proof {
                    assert(map@.dom() =~= disasm_map_spec(cur).dom());
                }
            },
            None => {
                proof {
                    assert(map@.dom() =~= disasm_map_spec(cur).dom());
                }
            },
        }
        i = i + 1;
    }
    proof {
        assert(lines.deep_view().subrange(0, lines@.len() as int) =~= lines.deep_view());
    }
    map
}

} // verus!
