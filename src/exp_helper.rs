use vstd::prelude::*;
use vstd::string::StringExecFns;

verus! {

/// The character of one decimal digit.
pub open spec fn digit_char(d: nat) -> char {
    if d == 0 { '0' }
    else if d == 1 { '1' }
    else if d == 2 { '2' }
    else if d == 3 { '3' }
    else if d == 4 { '4' }
    else if d == 5 { '5' }
    else if d == 6 { '6' }
    else if d == 7 { '7' }
    else if d == 8 { '8' }
    else { '9' }
}

/// Decimal digits of a natural number, most significant first, without leading zeros.
pub open spec fn decimal_digits(n: nat) -> Seq<char>
    decreases n,
{
    if n < 10 {
        seq![digit_char(n)]
    } else {
        decimal_digits(n / 10) + seq![digit_char(n % 10)]
    }
}

/// Decimal text of an integer, with a leading '-' when it is negative.
pub open spec fn int_text(n: int) -> Seq<char> {
    if n < 0 {
        seq!['-'] + decimal_digits((-n) as nat)
    } else {
        decimal_digits(n as nat)
    }
}

/// The identifiers rendered as a comma-joined literal list, in input order.
pub open spec fn ids_exp(ids: Seq<i32>) -> Seq<char>
    decreases ids.len(),
{
    if ids.len() == 0 {
        seq![]
    } else if ids.len() == 1 {
        int_text(ids[0] as int)
    } else {
        ids_exp(ids.drop_last()) + seq![','] + int_text(ids.last() as int)
    }
}

/// Text of `SELECT * FROM <table> WHERE id IN (<ids>)`.
pub open spec fn select_in_text(table: Seq<char>, ids: Seq<i32>) -> Seq<char> {
    "SELECT * FROM "@ + table + " WHERE id IN ("@ + ids_exp(ids) + ")"@
}

/// Text of `DELETE FROM <table> WHERE id IN (<ids>)`.
pub open spec fn delete_in_text(table: Seq<char>, ids: Seq<i32>) -> Seq<char> {
    "DELETE FROM "@ + table + " WHERE id IN ("@ + ids_exp(ids) + ")"@
}

fn digit_str(d: u64) -> (r: &'static str)
    requires
        d < 10,
    ensures
        r@ == seq![digit_char(d as nat)],
{
    if d == 0 {
        proof { reveal_strlit("0"); }
        "0"
    } else if d == 1 {
        proof { reveal_strlit("1"); }
        "1"
    } else if d == 2 {
        proof { reveal_strlit("2"); }
        "2"
    } else if d == 3 {
        proof { reveal_strlit("3"); }
        "3"
    } else if d == 4 {
        proof { reveal_strlit("4"); }
        "4"
    } else if d == 5 {
        proof { reveal_strlit("5"); }
        "5"
    } else if d == 6 {
        proof { reveal_strlit("6"); }
        "6"
    } else if d == 7 {
        proof { reveal_strlit("7"); }
        "7"
    } else if d == 8 {
        proof { reveal_strlit("8"); }
        "8"
    } else {
        proof { reveal_strlit("9"); }
        "9"
    }
}

fn push_digits(s: &mut String, n: u64)
    ensures
        final(s)@ == old(s)@ + decimal_digits(n as nat),
    decreases n,
{
    if n >= 10 {
        push_digits(s, n / 10);
    }
    s.append(digit_str(n % 10));
    proof {
        assert(final(s)@ =~= old(s)@ + decimal_digits(n as nat));
    }
}

/// Appends the decimal text of `n`.
fn push_int(s: &mut String, n: i32)
    ensures
        final(s)@ == old(s)@ + int_text(n as int),
{
    if n < 0 {
        proof { reveal_strlit("-"); }
        s.append("-");
        let m: i64 = -(n as i64);
        push_digits(s, m as u64);
        proof {
            assert(final(s)@ =~= old(s)@ + int_text(n as int));
        }
    } else {
        push_digits(s, n as u64);
    }
}

/// Renders identifier lists into SQL `IN (...)` fragments. It formats integers only
/// and escapes nothing, which is safe because identifiers are numeric.
#[derive(Clone, Copy, Debug)]
pub struct ExpHelper {}

impl ExpHelper {
    pub fn new() -> (r: ExpHelper) {
        ExpHelper {}
    }

    /// The identifiers joined by commas, in input order.
    pub fn get_ids_as_exp(&self, ids: &Vec<i32>) -> (r: String)
        ensures
            r@ == ids_exp(ids@),
    {
        let mut result = String::new();
        let mut i: usize = 0;
        while i < ids.len()
            invariant
                i <= ids@.len(),
                result@ == ids_exp(ids@.take(i as int)),
            decreases ids.len() - i,
        {
            let ghost before = result@;
            if i != 0 {
                proof { reveal_strlit(","); }
                result.append(",");
            }
            push_int(&mut result, ids[i]);
            proof {
                let t = ids@.take(i + 1);
                assert(t.drop_last() =~= ids@.take(i as int));
                if i == 0 {
                    assert(ids_exp(ids@.take(0)) =~= seq![]);
                }
                assert(result@ =~= ids_exp(t));
            }
            i = i + 1;
        }
        assert(ids@.take(ids@.len() as int) =~= ids@);
        result
    }

    /// `SELECT * FROM <table> WHERE id IN (<ids>)`.
    pub fn get_select_in_exp(&self, table: &str, ids: &Vec<i32>) -> (r: String)
        ensures
            r@ == select_in_text(table@, ids@),
    {
        let mut s = String::from_str("SELECT * FROM ");
        s.append(table);
        s.append(" WHERE id IN (");
        let list = self.get_ids_as_exp(ids);
        s.append(list.as_str());
        s.append(")");
        s
    }

    /// `DELETE FROM <table> WHERE id IN (<ids>)`.
    pub fn get_delete_in_exp(&self, table: &str, ids: &Vec<i32>) -> (r: String)
        ensures
            r@ == delete_in_text(table@, ids@),
    {
        let mut s = String::from_str("DELETE FROM ");
        s.append(table);
        s.append(" WHERE id IN (");
        let list = self.get_ids_as_exp(ids);
        s.append(list.as_str());
        s.append(")");
        s
    }
}

} // verus!
