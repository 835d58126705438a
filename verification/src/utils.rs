use vstd::prelude::*;
use vstd::string::*;

verus! {

/// The ASCII digit for a value below ten.
pub open spec fn digit_char(d: nat) -> char {
    if d == 0 {
        '0'
    } else if d == 1 {
        '1'
    } else if d == 2 {
        '2'
    } else if d == 3 {
        '3'
    } else if d == 4 {
        '4'
    } else if d == 5 {
        '5'
    } else if d == 6 {
        '6'
    } else if d == 7 {
        '7'
    } else if d == 8 {
        '8'
    } else {
        '9'
    }
}

/// The decimal rendering of a natural number, without leading zeros.
pub open spec fn dec_str(n: nat) -> Seq<char>
    decreases n,
{
    if n < 10 {
        seq![digit_char(n)]
    } else {
        dec_str(n / 10).push(digit_char(n % 10))
    }
}

fn digit_str(d: u64) -> (s: &'static str)
    requires
        d < 10,
    ensures
        s@ == seq![digit_char(d as nat)],
{
    proof {
        reveal_strlit("0");
        reveal_strlit("1");
        reveal_strlit("2");
        reveal_strlit("3");
        reveal_strlit("4");
        reveal_strlit("5");
        reveal_strlit("6");
        reveal_strlit("7");
        reveal_strlit("8");
        reveal_strlit("9");
        assert("0"@ =~= seq![digit_char(0)]);
        assert("1"@ =~= seq![digit_char(1)]);
        assert("2"@ =~= seq![digit_char(2)]);
        assert("3"@ =~= seq![digit_char(3)]);
        assert("4"@ =~= seq![digit_char(4)]);
        assert("5"@ =~= seq![digit_char(5)]);
        assert("6"@ =~= seq![digit_char(6)]);
        assert("7"@ =~= seq![digit_char(7)]);
        assert("8"@ =~= seq![digit_char(8)]);
        assert("9"@ =~= seq![digit_char(9)]);
    }
    match d {
        0 => "0",
        1 => "1",
        2 => "2",
        3 => "3",
        4 => "4",
        5 => "5",
        6 => "6",
        7 => "7",
        8 => "8",
        _ => "9",
    }
}

/// Renders a number in decimal.
pub fn fmt_u64(n: u64) -> (s: String)
    ensures
        s@ == dec_str(n as nat),
    decreases n,
{
    if n < 10 {
        let mut s = String::new();
        s.append(digit_str(n));
        assert(s@ =~= dec_str(n as nat));
        s
    } else {
        let mut s = fmt_u64(n / 10);
        s.append(digit_str(n % 10));
        assert(s@ =~= dec_str(n as nat));
        s
    }
}

/// Renders a pixel count in decimal.
pub fn fmt_usize(n: usize) -> (s: String)
    ensures
        s@ == dec_str(n as nat),
{
    fmt_u64(n as u64)
}

/// The fractional part of a coordinate held in thousandths, rendered with
/// three decimal places at most and trailing zeros trimmed.  A whole number
/// gets no decimal point at all.
pub open spec fn frac_str(f: nat) -> Seq<char> {
    if f == 0 {
        Seq::<char>::empty()
    } else if f % 10 != 0 {
        seq!['.', digit_char(f / 100), digit_char((f / 10) % 10), digit_char(f % 10)]
    } else if (f / 10) % 10 != 0 {
        seq!['.', digit_char(f / 100), digit_char((f / 10) % 10)]
    } else {
        seq!['.', digit_char(f / 100)]
    }
}

/// The canonical rendering of a coordinate held in thousandths: the whole
/// part in decimal, then the trimmed fraction.
pub open spec fn milli_str(m: nat) -> Seq<char> {
    dec_str(m / 1000) + frac_str(m % 1000)
}

/// Renders a coordinate held in thousandths, e.g. `1234` as `"1.234"`,
/// `3030` as `"3.03"` and `2000` as `"2"`.
pub fn fmt_milli(m: u32) -> (s: String)
    ensures
        s@ == milli_str(m as nat),
{
    let int_part: u32 = m / 1000;
    let frac: u32 = m % 1000;
    let mut s = fmt_u64(int_part as u64);
    if frac != 0 {
        proof {
            reveal_strlit(".");
        }
        s.append(".");
        let d1: u32 = frac / 100;
        let d2: u32 = (frac / 10) % 10;
        let d3: u32 = frac % 10;
        if d3 != 0 {
            s.append(digit_str(d1 as u64));
            s.append(digit_str(d2 as u64));
            s.append(digit_str(d3 as u64));
        } else if d2 != 0 {
            s.append(digit_str(d1 as u64));
            s.append(digit_str(d2 as u64));
        } else {
            s.append(digit_str(d1 as u64));
        }
    }
    assert(s@ =~= milli_str(m as nat));
    s
}

/// Formats each coordinate of a list held in thousandths.
pub fn format_floats(floats: Vec<u32>) -> (r: Vec<String>)
    ensures
        r@.len() == floats@.len(),
        forall|i: int| 0 <= i < r@.len() ==> #[trigger] r@[i]@ == milli_str(floats@[i] as nat),
{
    let mut r: Vec<String> = Vec::new();
    let mut i: usize = 0;
    while i < floats.len()
        invariant
            i <= floats@.len(),
            r@.len() == i,
            forall|j: int| 0 <= j < i ==> #[trigger] r@[j]@ == milli_str(floats@[j] as nat),
        decreases floats@.len() - i,
    {
        r.push(fmt_milli(floats[i]));
        i = i + 1;
    }
    r
}

/// Copies a list of numbers, keeping every element.
pub fn copy_usizes(v: &Vec<usize>) -> (r: Vec<usize>)
    ensures
        r@ == v@,
{
    let mut r: Vec<usize> = Vec::new();
    let mut i: usize = 0;
    while i < v.len()
        invariant
            i <= v@.len(),
            r@ =~= v@.subrange(0, i as int),
        decreases v@.len() - i,
    {
        r.push(v[i]);
        i = i + 1;
    }
    assert(r@ =~= v@);
    r
}

/// Copies a list of bytes, keeping every element.
pub fn copy_bytes(v: &Vec<u8>) -> (r: Vec<u8>)
    ensures
        r@ == v@,
{
    let mut r: Vec<u8> = Vec::new();
    let mut i: usize = 0;
    while i < v.len()
        invariant
            i <= v@.len(),
            r@ =~= v@.subrange(0, i as int),
        decreases v@.len() - i,
    {
        r.push(v[i]);
        i = i + 1;
    }
    assert(r@ =~= v@);
    r
}

/// Whether two lists of numbers hold the same elements in order.
pub fn usizes_eq(a: &Vec<usize>, b: &Vec<usize>) -> (r: bool)
    ensures
        r == (a@ == b@),
{
    if a.len() != b.len() {
        proof {
            assert(a@ != b@);
        }
        return false;
    }
    let mut i: usize = 0;
    while i < a.len()
        invariant
            a@.len() == b@.len(),
            i <= a@.len(),
            forall|j: int| 0 <= j < i ==> a@[j] == b@[j],
        decreases a@.len() - i,
    {
        if a[i] != b[i] {
            proof {
                assert(a@[i as int] != b@[i as int]);
            }
            return false;
        }
        i = i + 1;
    }
    proof {
        assert(a@ =~= b@);
    }
    true
}

/// Whether two lists of strings hold the same texts in order.
pub open spec fn strings_seq_eq(a: Seq<String>, b: Seq<String>) -> bool {
    a.len() == b.len() && forall|i: int| 0 <= i < a.len() ==> (#[trigger] a[i]@) == b[i]@
}

/// Compares two lists of strings text for text.
pub fn strings_eq(a: &Vec<String>, b: &Vec<String>) -> (r: bool)
    ensures
        r == strings_seq_eq(a@, b@),
{
    if a.len() != b.len() {
        return false;
    }
    let mut i: usize = 0;
    while i < a.len()
        invariant
            a@.len() == b@.len(),
            i <= a@.len(),
            forall|j: int| 0 <= j < i ==> (#[trigger] a@[j]@) == b@[j]@,
        decreases a@.len() - i,
    {
        if !(a[i] == b[i]) {
            proof {
                assert(a@[i as int]@ != b@[i as int]@);
            }
            return false;
        }
        i = i + 1;
    }
    true
}

/// Copies a list of strings, keeping every element.
pub fn copy_strings(v: &Vec<String>) -> (r: Vec<String>)
    ensures
        r@ == v@,
{
    let mut r: Vec<String> = Vec::new();
    let mut i: usize = 0;
    while i < v.len()
        invariant
            i <= v@.len(),
            r@ =~= v@.subrange(0, i as int),
        decreases v@.len() - i,
    {
        r.push(v[i].clone());
        i = i + 1;
    }
    assert(r@ =~= v@);
    r
}

/// Joins four rendered coordinates with commas, as the IIIF region grammar
/// asks.
pub fn join_coords(x: &str, y: &str, w: &str, h: &str) -> (s: String)
    ensures
        s@ == x@ + ","@ + y@ + ","@ + w@ + ","@ + h@,
{
    let mut s = String::from_str(x);
    s.append(",");
    s.append(y);
    s.append(",");
    s.append(w);
    s.append(",");
    s.append(h);
    assert(s@ =~= x@ + ","@ + y@ + ","@ + w@ + ","@ + h@);
    s
}

} // verus!
