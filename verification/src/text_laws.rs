//! What is promised of numbers in decimal and of the statements for the database.
use crate::admission::{client_cap, to_client_cap};
use crate::text::{
    clear_update_query, clear_update_statement, decimal, network_query, network_statement,
    online_query, online_statement, to_decimal, traffic_query, traffic_statement, Statement,
};
use vstd::prelude::*;

verus! {

/// A number below ten is written by its own digit. One more digit behind a number
/// that is not zero writes ten times that number, with the digit added.
pub proof fn law_decimal_grows_by_its_last_digit(n: nat, digit: nat)
    requires
        digit < 10,
    ensures
        decimal(digit).len() == 1,
        decimal(digit)[0] as int == '0' as int + digit,
        n > 0 ==> decimal(10 * n + digit).drop_last() == decimal(n),
        n > 0 ==> decimal(10 * n + digit).last() as int == '0' as int + digit,
{
    if n > 0 {
        let whole: nat = 10 * n + digit;
        assert(whole / 10 == n);
        assert(whole % 10 == digit);
        assert(decimal(whole).drop_last() =~= decimal(n));
    }
}

/// Every character of a number in decimal is a digit, and none but zero begins
/// with a zero.
pub proof fn law_decimal_has_no_leading_zero(n: nat)
    ensures
        decimal(n).len() > 0,
        forall|i: int|
            0 <= i < decimal(n).len() ==> '0' as int <= #[trigger] decimal(n)[i] as int <= '9' as int,
        n > 0 ==> decimal(n)[0] as int > '0' as int,
    decreases n,
{
    if n >= 10 {
        law_decimal_has_no_leading_zero(n / 10);
        law_decimal_grows_by_its_last_digit(n / 10, n % 10);
        let front = decimal(n).drop_last();
        assert(front == decimal(n / 10));
        assert forall|i: int| 0 <= i < decimal(n).len() implies '0' as int
            <= #[trigger] decimal(n)[i] as int <= '9' as int by {
            if i < front.len() {
                assert(front[i] == decimal(n)[i]);
            }
        }
        assert(front[0] == decimal(n)[0]);
    } else {
        law_decimal_grows_by_its_last_digit(0, n);
    }
}

/// The text for ten times a number and a digit is that for the number, with the
/// digit behind it; for a number below ten it is the digit alone.
pub proof fn law_written_numbers_grow_by_a_digit(
    n: usize,
    digit: usize,
    whole: usize,
    text: String,
    whole_text: String,
)
    requires
        call_ensures(to_decimal, (n,), text),
        call_ensures(to_decimal, (whole,), whole_text),
        digit < 10,
        whole == 10 * n + digit,
    ensures
        n > 0 ==> whole_text@.drop_last() == text@,
        n == 0 ==> whole_text@.len() == 1,
        whole_text@.len() > 0,
        whole_text@.last() as int == '0' as int + digit,
{
    law_decimal_grows_by_its_last_digit(n as nat, digit as nat);
}

/// The text of each statement, and the value that is bound in it, for every name.
pub proof fn law_statements_ask_for_what_is_bound(
    name: &str,
    online: usize,
    network: Statement,
    traffic: Statement,
    clear_update: Statement,
    count: Statement,
    digits: String,
)
    requires
        call_ensures(network_statement, (name,), network),
        call_ensures(traffic_statement, (name,), traffic),
        call_ensures(clear_update_statement, (name,), clear_update),
        call_ensures(online_statement, (online, name), count),
        call_ensures(to_decimal, (online,), digits),
    ensures
        network.bound@ == name@,
        network.sql@ == "SELECT * FROM vnets WHERE token=? AND deleted_at IS NULL"@,
        traffic.bound@ == name@,
        traffic.sql@
            == "SELECT remaining_traffic FROM users WHERE user_id=? AND deleted_at IS NULL"@,
        clear_update.bound@ == name@,
        clear_update.sql@
            == "UPDATE vnets SET need_update=0 WHERE token=? AND deleted_at IS NULL"@,
        count.bound@ == name@,
        count.sql@ == "UPDATE vnets SET clients_online="@ + digits@
            + " WHERE token=? AND deleted_at IS NULL"@,
{
}

/// The same of the models.
pub proof fn law_queries_ask_for_what_is_bound(name: Seq<char>, online: nat)
    ensures
        network_query(name).bound == name,
        network_query(name).sql == "SELECT * FROM vnets WHERE token=? AND deleted_at IS NULL"@,
        traffic_query(name).bound == name,
        traffic_query(name).sql
            == "SELECT remaining_traffic FROM users WHERE user_id=? AND deleted_at IS NULL"@,
        clear_update_query(name).bound == name,
        clear_update_query(name).sql
            == "UPDATE vnets SET need_update=0 WHERE token=? AND deleted_at IS NULL"@,
        online_query(online, name).bound == name,
        online_query(online, name).sql == "UPDATE vnets SET clients_online="@ + decimal(online)
            + " WHERE token=? AND deleted_at IS NULL"@,
{
}

/// A limit of zero or more peers is that many. A negative one is as many as is left
/// of all numbers of peers that can be counted: with the limit taken away it is
/// one more than the greatest.
pub proof fn law_limit_is_the_number_of_peers(clients_limit: i32, cap: usize)
    requires
        call_ensures(to_client_cap, (clients_limit,), cap),
    ensures
        cap == client_cap(clients_limit),
        clients_limit >= 0 ==> cap == clients_limit,
        clients_limit < 0 ==> cap - clients_limit == usize::MAX + 1,
{
}

} // verus!
