//! The statements that are sent to the database, and numbers in decimal.
use vstd::prelude::*;

verus! {

/// The character of a decimal digit.
pub open spec fn digit_char(digit: nat) -> char {
    (('0' as int) + digit) as char
}

/// The value of a decimal digit's character.
pub open spec fn digit_value(c: char) -> int {
    c as int - '0' as int
}

/// A number in decimal, without leading zeros.
pub open spec fn decimal(n: nat) -> Seq<char>
    decreases n,
{
    if n < 10 {
        seq![digit_char(n)]
    } else {
        decimal(n / 10).push(digit_char(n % 10))
    }
}

/// The number that a sequence of decimal digits writes.
pub open spec fn decimal_value(digits: Seq<char>) -> int
    decreases digits.len(),
{
    if digits.len() == 0 {
        0
    } else {
        10 * decimal_value(digits.drop_last()) + digit_value(digits.last())
    }
}

/// A number can be read back from its decimal digits.
pub proof fn law_decimal_reads_back(n: nat)
    ensures
        decimal_value(decimal(n)) == n,
    decreases n,
{
    if n < 10 {
        let digits = decimal(n);
        assert(digits.drop_last() =~= Seq::empty());
        assert(digits.last() == digit_char(n));
        reveal_with_fuel(decimal_value, 2);
    } else {
        law_decimal_reads_back(n / 10);
        assert(decimal(n).drop_last() =~= decimal(n / 10));
    }
}

fn digit_str(digit: usize) -> (text: &'static str)
    requires
        digit < 10,
    ensures
        text@ == seq![digit_char(digit as nat)],
{
    proof {
        reveal_strlit("0");
        reveal_strlit("1");
        reveal_strlit("2");
        reveal_strlit("3");
        reveal_strlit("4");
        reveal_strlit("5");
        reveal_strlit("6");
        reveal_strlit("7");
        reveal_strlit("8");
        reveal_strlit("9");
    }
    match digit {
        0 => "0",
        1 => "1",
        2 => "2",
        3 => "3",
        4 => "4",
        5 => "5",
        6 => "6",
        7 => "7",
        8 => "8",
        _ => "9",
    }
}

/// A number in decimal, without leading zeros.
pub fn to_decimal(n: usize) -> (text: String)
    ensures
        text@ == decimal(n as nat),
    decreases n,
{
    if n < 10 {
        digit_str(n).to_owned()
    } else {
        let mut text = to_decimal(n / 10);
        text.append(digit_str(n % 10));
        assert(text@ =~= decimal(n as nat));
        text
    }
}

/// A statement for the database: its text, with a `?` where its one value goes,
/// and that value, which is handed over beside the text.
#[derive(Debug)]
pub struct Statement {
    pub sql: String,
    pub bound: String,
}

/// The model of a [`Statement`].
#[verifier::ext_equal]
pub struct StatementView {
    pub sql: Seq<char>,
    pub bound: Seq<char>,
}

impl View for Statement {
    type V = StatementView;

    open spec fn view(&self) -> StatementView {
        StatementView { sql: self.sql@, bound: self.bound@ }
    }
}

/// The statement that reads the network with the given token.
pub open spec fn network_query(network_name: Seq<char>) -> StatementView {
    StatementView {
        sql: "SELECT * FROM vnets WHERE token=? AND deleted_at IS NULL"@,
        bound: network_name,
    }
}

/// The statement that reads what traffic a user has left.
pub open spec fn traffic_query(user_id: Seq<char>) -> StatementView {
    StatementView {
        sql: "SELECT remaining_traffic FROM users WHERE user_id=? AND deleted_at IS NULL"@,
        bound: user_id,
    }
}

/// The statement that takes back the request to evict a network's peers.
pub open spec fn clear_update_query(network_name: Seq<char>) -> StatementView {
    StatementView {
        sql: "UPDATE vnets SET need_update=0 WHERE token=? AND deleted_at IS NULL"@,
        bound: network_name,
    }
}

/// The statement that stores how many peers of a network are online.
pub open spec fn online_query(online: nat, network_name: Seq<char>) -> StatementView {
    StatementView {
        sql: "UPDATE vnets SET clients_online="@ + decimal(online)
            + " WHERE token=? AND deleted_at IS NULL"@,
        bound: network_name,
    }
}

/// Writes [`network_query`].
pub fn network_statement(network_name: &str) -> (statement: Statement)
    ensures
        statement@ == network_query(network_name@),
{
    Statement {
        sql: "SELECT * FROM vnets WHERE token=? AND deleted_at IS NULL".to_owned(),
        bound: network_name.to_owned(),
    }
}

/// Writes [`traffic_query`].
pub fn traffic_statement(user_id: &str) -> (statement: Statement)
    ensures
        statement@ == traffic_query(user_id@),
{
    Statement {
        sql: "SELECT remaining_traffic FROM users WHERE user_id=? AND deleted_at IS NULL".to_owned(),
        bound: user_id.to_owned(),
    }
}

/// Writes [`clear_update_query`].
pub fn clear_update_statement(network_name: &str) -> (statement: Statement)
    ensures
        statement@ == clear_update_query(network_name@),
{
    Statement {
        sql: "UPDATE vnets SET need_update=0 WHERE token=? AND deleted_at IS NULL".to_owned(),
        bound: network_name.to_owned(),
    }
}

/// Writes [`online_query`].
pub fn online_statement(online: usize, network_name: &str) -> (statement: Statement)
    ensures
        statement@ == online_query(online as nat, network_name@),
{
    let mut sql = "UPDATE vnets SET clients_online=".to_owned();
    let digits = to_decimal(online);
    sql.append(digits.as_str());
    sql.append(" WHERE token=? AND deleted_at IS NULL");
    Statement { sql, bound: network_name.to_owned() }
}

/// The text of a statement is the same whatever network or user it is about: a
/// name is only ever handed over as the value that is compared.
pub proof fn law_names_are_not_part_of_the_text(one: Seq<char>, other: Seq<char>, online: nat)
    ensures
        network_query(one).sql == network_query(other).sql,
        network_query(one).bound == one,
        traffic_query(one).sql == traffic_query(other).sql,
        traffic_query(one).bound == one,
        clear_update_query(one).sql == clear_update_query(other).sql,
        clear_update_query(one).bound == one,
        online_query(online, one).sql == online_query(online, other).sql,
        online_query(online, one).bound == one,
{
}

} // verus!
