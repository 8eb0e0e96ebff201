//! Text that the contracts put into their response attributes: decimal
//! numbers, joined lists, and the bracketed form of a byte string.
use vstd::prelude::*;
use vstd::string::*;

verus! {

/// The decimal digit for `d`, where `d < 10`.
pub open spec fn digit_char(d: nat) -> char {
    if d == 0 {
        '0'
    } else if d == 1 {
        '1'
    } else if d == 2 {
        '2'
    } else if d == 3 {
        '3'
    } else if d == 4 {
        '4'
    } else if d == 5 {
        '5'
    } else if d == 6 {
        '6'
    } else if d == 7 {
        '7'
    } else if d == 8 {
        '8'
    } else {
        '9'
    }
}

/// The decimal representation of `n`, without leading zeros.
pub open spec fn dec(n: nat) -> Seq<char>
    decreases n,
{
    if n < 10 {
        seq![digit_char(n)]
    } else {
        dec(n / 10).push(digit_char(n % 10))
    }
}

/// `parts` joined with `sep` between consecutive parts.
pub open spec fn join(parts: Seq<Seq<char>>, sep: Seq<char>) -> Seq<char>
    decreases parts.len(),
{
    if parts.len() == 0 {
        Seq::empty()
    } else if parts.len() == 1 {
        parts[0]
    } else {
        join(parts.drop_last(), sep) + sep + parts.last()
    }
}

/// The bracketed list form of a byte string, as in `[1, 120, 121]`.
pub open spec fn bracketed_bytes(b: Seq<u8>) -> Seq<char> {
    seq!['['] + join(b.map_values(|x: u8| dec(x as nat)), seq![',', ' ']) + seq![']']
}

fn digit_str(d: u128) -> (s: &'static str)
    requires
        d < 10,
    ensures
        s@ == seq![digit_char(d as nat)],
{
    if d == 0 {
        proof { reveal_strlit("0"); }
        "0"
    } else if d == 1 {
        proof { reveal_strlit("1"); }
        "1"
    } else if d == 2 {
        proof { reveal_strlit("2"); }
        "2"
    } else if d == 3 {
        proof { reveal_strlit("3"); }
        "3"
    } else if d == 4 {
        proof { reveal_strlit("4"); }
        "4"
    } else if d == 5 {
        proof { reveal_strlit("5"); }
        "5"
    } else if d == 6 {
        proof { reveal_strlit("6"); }
        "6"
    } else if d == 7 {
        proof { reveal_strlit("7"); }
        "7"
    } else if d == 8 {
        proof { reveal_strlit("8"); }
        "8"
    } else {
        proof { reveal_strlit("9"); }
        "9"
    }
}

/// The decimal representation of `n`.
pub fn decimal(n: u128) -> (s: String)
    ensures
        s@ == dec(n as nat),
    decreases n,
{
    if n < 10 {
        String::from_str(digit_str(n))
    } else {
        let mut s = decimal(n / 10);
        s.append(digit_str(n % 10));
        s
    }
}

/// Joins `parts` with `sep` between consecutive parts.
pub fn join_strings(parts: &Vec<String>, sep: &str) -> (s: String)
    ensures
        s@ == join(parts@.map_values(|p: String| p@), sep@),
{
    let ghost views = parts@.map_values(|p: String| p@);
    let mut s = String::new();
    let mut i: usize = 0;
    while i < parts.len()
        invariant
            i <= parts@.len(),
            views == parts@.map_values(|p: String| p@),
            s@ == join(views.take(i as int), sep@),
        decreases parts.len() - i,
    {
        if i > 0 {
            s.append(sep);
        }
        s.append(parts[i].as_str());
        proof {
            assert(views.take(i + 1).drop_last() =~= views.take(i as int));
            if i == 0 {
                assert(s@ =~= views.take(1)[0]);
            }
        }
        i = i + 1;
    }
    assert(views.take(parts.len() as int) =~= views);
    s
}

/// The bracketed list form of `b`, as `format!("{:?}", b)` writes a byte vector.
pub fn bracketed(b: &Vec<u8>) -> (s: String)
    ensures
        s@ == bracketed_bytes(b@),
{
    let mut parts: Vec<String> = Vec::new();
    let mut i: usize = 0;
    while i < b.len()
        invariant
            i <= b@.len(),
            parts@.len() == i,
            forall|k: int| 0 <= k < i ==> #[trigger] parts@[k]@ == dec(b@[k] as nat),
        decreases b.len() - i,
    {
        parts.push(decimal(b[i] as u128));
        i = i + 1;
    }
    let sep = ", ";
    let open = "[";
    let close = "]";
    proof {
        reveal_strlit(", ");
        reveal_strlit("[");
        reveal_strlit("]");
    }
    assert(sep@ =~= seq![',', ' ']);
    assert(open@ =~= seq!['[']);
    assert(close@ =~= seq![']']);
    let inner = join_strings(&parts, sep);
    let mut s = String::from_str(open);
    s.append(inner.as_str());
    s.append(close);
    assert(parts@.map_values(|p: String| p@) =~= b@.map_values(|x: u8| dec(x as nat)));
    s
}

} // verus!
