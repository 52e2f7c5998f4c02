//! Small verified text renderings: decimal numbers and quoted SQL
//! identifiers.

use vstd::prelude::*;

verus! {

/// The decimal digit character for `d < 10`.
pub open spec fn digit_char(d: int) -> char {
    if d == 0 {
        '0'
    } else if d == 1 {
        '1'
    } else if d == 2 {
        '2'
    } else if d == 3 {
        '3'
    } else if d == 4 {
        '4'
    } else if d == 5 {
        '5'
    } else if d == 6 {
        '6'
    } else if d == 7 {
        '7'
    } else if d == 8 {
        '8'
    } else {
        '9'
    }
}

/// The decimal text of `n`, without leading zeros.
pub open spec fn decimal_text(n: nat) -> Seq<char>
    decreases n,
{
    if n < 10 {
        seq![digit_char(n as int)]
    } else {
        decimal_text(n / 10).push(digit_char((n % 10) as int))
    }
}

fn digit_str(d: u64) -> (r: &'static str)
    requires
        d < 10,
    ensures
        r@ == seq![digit_char(d as int)],
{
    proof {
        reveal_strlit("0");
        reveal_strlit("1");
        reveal_strlit("2");
        reveal_strlit("3");
        reveal_strlit("4");
        reveal_strlit("5");
        reveal_strlit("6");
        reveal_strlit("7");
        reveal_strlit("8");
        reveal_strlit("9");
    }
    if d == 0 {
        "0"
    } else if d == 1 {
        "1"
    } else if d == 2 {
        "2"
    } else if d == 3 {
        "3"
    } else if d == 4 {
        "4"
    } else if d == 5 {
        "5"
    } else if d == 6 {
        "6"
    } else if d == 7 {
        "7"
    } else if d == 8 {
        "8"
    } else {
        "9"
    }
}

/// `n` written in decimal.
pub fn decimal(n: u64) -> (r: String)
    ensures
        r@ == decimal_text(n as nat),
    decreases n,
{
    if n < 10 {
        let mut s = String::new();
        s.append(digit_str(n));
        s
    } else {
        let mut s = decimal(n / 10);
        s.append(digit_str(n % 10));
        s
    }
}

/// `s` with every double quote doubled.
pub open spec fn escape_quotes(s: Seq<char>) -> Seq<char>
    decreases s.len(),
{
    if s.len() == 0 {
        Seq::empty()
    } else {
        escape_quotes(s.drop_last()) + (if s.last() == '"' {
            seq!['"', '"']
        } else {
            seq![s.last()]
        })
    }
}

/// `s` as an SQL identifier: in double quotes, inner quotes doubled.
pub open spec fn quoted_identifier(s: Seq<char>) -> Seq<char> {
    seq!['"'] + escape_quotes(s) + seq!['"']
}

/// Quotes `name` as an SQL identifier, so that any table name can stand in
/// a statement.
pub fn quote_identifier(name: &str) -> (r: String)
    ensures
        r@ == quoted_identifier(name@),
{
    proof {
        reveal_strlit("\"");
        reveal_strlit("\"\"");
    }
    let n = name.unicode_len();
    let mut r = String::new();
    r.append("\"");
    let mut i: usize = 0;
    while i < n
        invariant
            n == name@.len(),
            i <= n,
            r@ == seq!['"'] + escape_quotes(name@.subrange(0, i as int)),
        decreases n - i,
    {
        proof {
            reveal_strlit("\"\"");
        }
        let c = name.get_char(i);
        let ghost r0 = r@;
        let ghost before = name@.subrange(0, i as int);
        let ghost after = name@.subrange(0, i + 1);
        assert(after.drop_last() =~= before);
        assert(after.last() == c);
        assert(escape_quotes(after) == escape_quotes(before) + (if c == '"' {
            seq!['"', '"']
        } else {
            seq![c]
        }));
        if c == '"' {
            r.append("\"\"");
            assert(r@ =~= r0 + seq!['"', '"']);
        } else {
            r.append(name.substring_char(i, i + 1));
            assert(name@.subrange(i as int, i + 1) =~= seq![c]);
        }
        assert(r@ =~= seq!['"'] + escape_quotes(after));
        i = i + 1;
    }
    assert(name@.subrange(0, n as int) =~= name@);
    r.append("\"");
    r
}

/// The statement that lists the columns of table `name`.
pub fn table_info_query(name: &str) -> (r: String)
    ensures
        r@ == "PRAGMA table_info("@ + quoted_identifier(name@) + ")"@,
{
    let mut r = String::new();
    r.append("PRAGMA table_info(");
    let q = quote_identifier(name);
    r.append(q.as_str());
    r.append(")");
    r
}

/// The statement that counts the rows of table `name`.
pub fn row_count_query(name: &str) -> (r: String)
    ensures
        r@ == "SELECT COUNT(*) FROM "@ + quoted_identifier(name@),
{
    let mut r = String::new();
    r.append("SELECT COUNT(*) FROM ");
    let q = quote_identifier(name);
    r.append(q.as_str());
    r
}

} // verus!
