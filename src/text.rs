use vstd::prelude::*;

verus! {

/// The character a decimal digit is written with.
pub open spec fn digit_char(d: int) -> char {
    if d == 0 {
        '0'
    } else if d == 1 {
        '1'
    } else if d == 2 {
        '2'
    } else if d == 3 {
        '3'
    } else if d == 4 {
        '4'
    } else if d == 5 {
        '5'
    } else if d == 6 {
        '6'
    } else if d == 7 {
        '7'
    } else if d == 8 {
        '8'
    } else {
        '9'
    }
}

/// A number written in decimal, without leading zeros.
pub open spec fn decimal_text(n: nat) -> Seq<char>
    decreases n,
{
    if n < 10 {
        seq![digit_char(n as int)]
    } else {
        decimal_text(n / 10).push(digit_char((n % 10) as int))
    }
}

fn digit_str(d: u8) -> (r: &'static str)
    requires
        d < 10,
    ensures
        r@ == seq![digit_char(d as int)],
{
    proof {
        reveal_strlit("0");
        reveal_strlit("1");
        reveal_strlit("2");
        reveal_strlit("3");
        reveal_strlit("4");
        reveal_strlit("5");
        reveal_strlit("6");
        reveal_strlit("7");
        reveal_strlit("8");
        reveal_strlit("9");
    }
    match d {
        0 => "0",
        1 => "1",
        2 => "2",
        3 => "3",
        4 => "4",
        5 => "5",
        6 => "6",
        7 => "7",
        8 => "8",
        _ => "9",
    }
}

/// Writes a byte in decimal.
pub fn u8_to_decimal(n: u8) -> (r: String)
    ensures
        r@ == decimal_text(n as nat),
{
    proof {
        reveal_with_fuel(decimal_text, 3);
    }
    let mut s = String::new();
    if n >= 100 {
        s.append(digit_str(n / 100));
    }
    if n >= 10 {
        s.append(digit_str((n / 10) % 10));
    }
    s.append(digit_str(n % 10));
    proof {
        let k = n as nat;
        if k >= 100 {
            assert(k / 10 / 10 == k / 100);
            assert(k / 100 < 10);
            assert(s@ =~= decimal_text(k));
        } else if k >= 10 {
            assert(s@ =~= decimal_text(k));
        } else {
            assert(s@ =~= decimal_text(k));
        }
    }
    s
}

/// Writes a number in decimal.
pub fn u64_to_decimal(n: u64) -> (r: String)
    ensures
        r@ == decimal_text(n as nat),
    decreases n,
{
    if n < 10 {
        return String::from_str(digit_str(n as u8));
    }
    let mut s = u64_to_decimal(n / 10);
    s.append(digit_str((n % 10) as u8));
    s
}

/// Strings joined with commas between them.
pub open spec fn comma_joined(items: Seq<Seq<char>>) -> Seq<char>
    decreases items.len(),
{
    if items.len() == 0 {
        Seq::empty()
    } else if items.len() == 1 {
        items[0]
    } else {
        comma_joined(items.drop_last()) + ","@ + items.last()
    }
}

/// Joins strings with commas between them.
pub fn join_commas(items: &Vec<String>) -> (r: String)
    ensures
        r@ == comma_joined(items@.map_values(|s: String| s@)),
{
    let ghost views = items@.map_values(|s: String| s@);
    let mut out = String::new();
    let n = items.len();
    let mut i: usize = 0;
    assert(views.subrange(0, 0).len() == 0);
    while i < n
        invariant
            n == items@.len(),
            views == items@.map_values(|s: String| s@),
            i <= n,
            out@ == comma_joined(views.subrange(0, i as int)),
        decreases n - i,
    {
        let ghost before = views.subrange(0, i as int);
        let ghost after = views.subrange(0, i + 1);
        assert(after.drop_last() =~= before);
        if i > 0 {
            out.append(",");
        } else {
            assert(out@ =~= Seq::<char>::empty());
        }
        out.append(items[i].as_str());
        if i == 0 {
            assert(out@ =~= comma_joined(after));
        } else {
            assert(out@ =~= comma_joined(after));
        }
        i = i + 1;
    }
    assert(views.subrange(0, n as int) =~= views);
    out
}

} // verus!
