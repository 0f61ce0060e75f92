//! The file name under which a retouched image is saved.
use vstd::prelude::*;

verus! {

/// The decimal digit `d` as a character.
pub open spec fn digit_char(d: int) -> char {
    if d == 0 {
        '0'
    } else if d == 1 {
        '1'
    } else if d == 2 {
        '2'
    } else if d == 3 {
        '3'
    } else if d == 4 {
        '4'
    } else if d == 5 {
        '5'
    } else if d == 6 {
        '6'
    } else if d == 7 {
        '7'
    } else if d == 8 {
        '8'
    } else {
        '9'
    }
}

/// The decimal notation of `n`, without leading zeros.
pub open spec fn decimal(n: nat) -> Seq<char>
    decreases n,
{
    if n < 10 {
        seq![digit_char(n as int)]
    } else {
        decimal(n / 10) + seq![digit_char((n % 10) as int)]
    }
}

/// The number that the decimal digits `s` denote.
pub open spec fn digits_value(s: Seq<char>) -> int
    decreases s.len(),
{
    if s.len() == 0 {
        0
    } else {
        digits_value(s.drop_last()) * 10 + digit_value(s.last())
    }
}

/// The value of a decimal digit character.
pub open spec fn digit_value(c: char) -> int {
    if c == '0' {
        0
    } else if c == '1' {
        1
    } else if c == '2' {
        2
    } else if c == '3' {
        3
    } else if c == '4' {
        4
    } else if c == '5' {
        5
    } else if c == '6' {
        6
    } else if c == '7' {
        7
    } else if c == '8' {
        8
    } else {
        9
    }
}

/// `c` is one of the ten decimal digits.
pub open spec fn is_decimal_digit(c: char) -> bool {
    c == '0' || c == '1' || c == '2' || c == '3' || c == '4' || c == '5' || c == '6' || c == '7'
        || c == '8' || c == '9'
}

/// The decimal notation of a number is made of decimal digits, reads back as that number,
/// and starts with a digit other than zero unless the number is zero.
pub proof fn lemma_decimal_reads_back(n: nat)
    ensures
        digits_value(decimal(n)) == n,
        decimal(n).len() >= 1,
        n > 0 ==> decimal(n)[0] != '0',
        forall|i: int| 0 <= i < decimal(n).len() ==> is_decimal_digit(#[trigger] decimal(n)[i]),
    decreases n,
{
    let d = (n % 10) as int;
    assert(digit_value(digit_char(d)) == d);
    if n >= 10 {
        lemma_decimal_reads_back(n / 10);
        let s = decimal(n);
        assert(s.drop_last() =~= decimal(n / 10));
        assert(s.last() == digit_char(d));
        assert(s[0] == decimal(n / 10)[0]);
        assert(n == (n / 10) * 10 + d);
        assert(digits_value(s) == digits_value(s.drop_last()) * 10 + digit_value(s.last()));
        assert(digits_value(s.drop_last()) == n / 10);
        assert forall|i: int| 0 <= i < s.len() implies is_decimal_digit(#[trigger] s[i]) by {
            if i < s.len() - 1 {
                assert(s[i] == decimal(n / 10)[i]);
            }
        }
    } else {
        let s = decimal(n);
        assert(s.drop_last() =~= Seq::<char>::empty());
        assert(d == n);
        assert(digits_value(s) == digits_value(s.drop_last()) * 10 + digit_value(s.last()));
        assert(digits_value(s.drop_last()) == 0);
    }
}

fn digit_str(d: u128) -> (res: &'static str)
    requires
        d < 10,
    ensures
        res@ == seq![digit_char(d as int)],
{
    proof {
        reveal_strlit("0");
        reveal_strlit("1");
        reveal_strlit("2");
        reveal_strlit("3");
        reveal_strlit("4");
        reveal_strlit("5");
        reveal_strlit("6");
        reveal_strlit("7");
        reveal_strlit("8");
        reveal_strlit("9");
    }
    if d == 0 {
        "0"
    } else if d == 1 {
        "1"
    } else if d == 2 {
        "2"
    } else if d == 3 {
        "3"
    } else if d == 4 {
        "4"
    } else if d == 5 {
        "5"
    } else if d == 6 {
        "6"
    } else if d == 7 {
        "7"
    } else if d == 8 {
        "8"
    } else {
        "9"
    }
}

/// The decimal notation of `n`.
pub fn decimal_string(n: u128) -> (res: String)
    ensures
        res@ == decimal(n as nat),
    decreases n,
{
    if n < 10 {
        String::from_str(digit_str(n))
    } else {
        let mut res = decimal_string(n / 10);
        res.append(digit_str(n % 10));
        res
    }
}

/// `s` with every `-` turned into `_`.
pub open spec fn hyphens_to_underscores(s: Seq<char>) -> Seq<char> {
    s.map_values(|c: char| if c == '-' { '_' } else { c })
}

/// `s` with every `-` turned into `_`.
pub fn replace_hyphens(s: &str) -> (res: String)
    ensures
        res@ == hyphens_to_underscores(s@),
        res@.len() == s@.len(),
        !res@.contains('-'),
        forall|i: int|
            0 <= i < s@.len() ==> #[trigger] res@[i] == if s@[i] == '-' {
                '_'
            } else {
                s@[i]
            },
{
    let n = s.unicode_len();
    let mut res = String::new();
    for i in 0..n
        invariant
            n == s@.len(),
            res@ == hyphens_to_underscores(s@.take(i as int)),
    {
        let c = s.get_char(i);
        if c == '-' {
            proof {
                reveal_strlit("_");
            }
            res.append("_");
        } else {
            let one = s.substring_char(i, i + 1);
            assert(one@ =~= seq![c]);
            res.append(one);
        }
        assert(hyphens_to_underscores(s@.take(i + 1)) =~= hyphens_to_underscores(s@.take(i as int))
            + seq![if s@[i as int] == '-' { '_' } else { s@[i as int] }]);
    }
    assert(s@.take(n as int) =~= s@);
    res
}

/// The file name of a retouched image: the source's stem (`image` where there is
/// none), the strategy identifier with `_` for `-`, the time stamp in milliseconds,
/// and the source's extension (`png` where there is none).
pub open spec fn output_file_name_of(
    stem: Option<Seq<char>>,
    strategy_id: Seq<char>,
    timestamp_ms: nat,
    extension: Option<Seq<char>>,
) -> Seq<char> {
    let stem = match stem {
        Some(s) => s,
        None => "image"@,
    };
    let extension = match extension {
        Some(e) => e,
        None => "png"@,
    };
    stem + "_"@ + hyphens_to_underscores(strategy_id) + "_"@ + decimal(timestamp_ms) + "."@
        + extension
}

/// `name` is made of, in order: `stem` unchanged (`image` where there is none), `_`, the
/// strategy identifier character by character with every `-` turned into `_` and every
/// other character kept, `_`, decimal digits without a leading zero that read back as
/// `timestamp_ms`, `.`, and `extension` unchanged (`png` where there is none).
pub open spec fn file_name_parts(
    name: Seq<char>,
    stem: Option<Seq<char>>,
    strategy_id: Seq<char>,
    timestamp_ms: nat,
    extension: Option<Seq<char>>,
) -> bool {
    let st = match stem {
        Some(s) => s,
        None => "image"@,
    };
    let ext = match extension {
        Some(e) => e,
        None => "png"@,
    };
    let a = st.len() as int;
    let b = a + 1 + strategy_id.len();
    let digits = name.len() - b - 2 - ext.len();
    &&& 1 <= digits
    &&& name.len() == b + 1 + digits + 1 + ext.len()
    &&& name.subrange(0, a) == st
    &&& name[a] == '_'
    &&& forall|i: int|
        0 <= i < strategy_id.len() ==> #[trigger] name[a + 1 + i] == if strategy_id[i]
            == '-' {
            '_'
        } else {
            strategy_id[i]
        }
    &&& name[b] == '_'
    &&& forall|i: int|
        b + 1 <= i < b + 1 + digits ==> is_decimal_digit(#[trigger] name[i])
    &&& digits_value(name.subrange(b + 1, b + 1 + digits)) == timestamp_ms
    &&& (timestamp_ms > 0 ==> name[b + 1] != '0')
    &&& name[b + 1 + digits] == '.'
    &&& name.subrange(b + 2 + digits, name.len() as int) == ext
}

/// The file name keeps the source's stem and extension as they are, turns only the
/// strategy identifier's `-` into `_`, and carries the time stamp in decimal.
pub proof fn lemma_output_file_name_parts(
    stem: Option<Seq<char>>,
    strategy_id: Seq<char>,
    timestamp_ms: nat,
    extension: Option<Seq<char>>,
)
    ensures
        file_name_parts(
            output_file_name_of(stem, strategy_id, timestamp_ms, extension),
            stem,
            strategy_id,
            timestamp_ms,
            extension,
        ),
{
    reveal_strlit("_");
    reveal_strlit(".");
    let name = output_file_name_of(stem, strategy_id, timestamp_ms, extension);
    let st = match stem {
        Some(s) => s,
        None => "image"@,
    };
    let ext = match extension {
        Some(e) => e,
        None => "png"@,
    };
    let a = st.len() as int;
    let b = a + 1 + strategy_id.len();
    let d = decimal(timestamp_ms);
    let digits = d.len() as int;
    lemma_decimal_reads_back(timestamp_ms);
    let safe = hyphens_to_underscores(strategy_id);
    assert(name =~= st + seq!['_'] + safe + seq!['_'] + d + seq!['.'] + ext);
    assert(name.subrange(0, a) =~= st);
    assert forall|i: int| 0 <= i < strategy_id.len() implies #[trigger] name[a + 1 + i]
        == if strategy_id[i] == '-' {
        '_'
    } else {
        strategy_id[i]
    } by {
        assert(name[a + 1 + i] == safe[i]);
    }
    assert(name.subrange(b + 1, b + 1 + digits) =~= d);
    assert forall|i: int| b + 1 <= i < b + 1 + digits implies is_decimal_digit(#[trigger] name[i]) by {
        assert(name[i] == d[i - b - 1]);
    }
    assert(name[b + 1] == d[0]);
    assert(name.subrange(b + 2 + digits, name.len() as int) =~= ext);
}

/// The file name of a retouched image from its parts; see [`output_file_name_of`].
pub fn output_file_name(
    stem: Option<&str>,
    strategy_id: &str,
    timestamp_ms: u128,
    extension: Option<&str>,
) -> (res: String)
    ensures
        res@ == output_file_name_of(
            match stem {
                Some(s) => Some(s@),
                None => None,
            },
            strategy_id@,
            timestamp_ms as nat,
            match extension {
                Some(e) => Some(e@),
                None => None,
            },
        ),
        file_name_parts(
            res@,
            match stem {
                Some(s) => Some(s@),
                None => None,
            },
            strategy_id@,
            timestamp_ms as nat,
            match extension {
                Some(e) => Some(e@),
                None => None,
            },
        ),
        stem matches Some(s) ==> res@.subrange(0, s@.len() as int) == s@ && res@[s@.len() as int]
            == '_',
{
    proof {
        lemma_output_file_name_parts(
            match stem {
                Some(s) => Some(s@),
                None => None,
            },
            strategy_id@,
            timestamp_ms as nat,
            match extension {
                Some(e) => Some(e@),
                None => None,
            },
        );
    }
    let mut name = match stem {
        Some(s) => String::from_str(s),
        None => String::from_str("image"),
    };
    name.append("_");
    let safe_strategy = replace_hyphens(strategy_id);
    name.append(safe_strategy.as_str());
    name.append("_");
    let stamp = decimal_string(timestamp_ms);
    name.append(stamp.as_str());
    name.append(".");
    match extension {
        Some(e) => name.append(e),
        None => name.append("png"),
    }
    name
}

} // verus!
