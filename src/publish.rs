use crate::sample::AirQualityStatus;
use vstd::prelude::*;

verus! {

/// One message to send to the broker, retained or not.
#[derive(Clone, Debug, PartialEq, Eq)]
pub struct Message {
    pub topic: String,
    pub payload: String,
    pub retained: bool,
}

pub open spec fn digit_char(d: int) -> char {
    if d == 0 {
        '0'
    } else if d == 1 {
        '1'
    } else if d == 2 {
        '2'
    } else if d == 3 {
        '3'
    } else if d == 4 {
        '4'
    } else if d == 5 {
        '5'
    } else if d == 6 {
        '6'
    } else if d == 7 {
        '7'
    } else if d == 8 {
        '8'
    } else {
        '9'
    }
}

/// Decimal rendering of a natural number, most significant digit first,
/// without leading zeros.
pub open spec fn decimal(n: nat) -> Seq<char>
    decreases n,
{
    if n < 10 {
        seq![digit_char(n as int)]
    } else {
        decimal(n / 10) + seq![digit_char((n % 10) as int)]
    }
}

/// The topic `name` under `prefix`.
pub open spec fn topic(prefix: Seq<char>, name: Seq<char>) -> Seq<char> {
    prefix + seq!['/'] + name
}

fn digit_str(d: u32) -> (r: &'static str)
    requires
        d < 10,
    ensures
        r@ == seq![digit_char(d as int)],
{
    proof {
        reveal_strlit("0");
        reveal_strlit("1");
        reveal_strlit("2");
        reveal_strlit("3");
        reveal_strlit("4");
        reveal_strlit("5");
        reveal_strlit("6");
        reveal_strlit("7");
        reveal_strlit("8");
        reveal_strlit("9");
    }
    match d {
        0 => "0",
        1 => "1",
        2 => "2",
        3 => "3",
        4 => "4",
        5 => "5",
        6 => "6",
        7 => "7",
        8 => "8",
        _ => "9",
    }
}

/// The decimal text of `n`.
pub fn decimal_string(n: u32) -> (r: String)
    ensures
        r@ == decimal(n as nat),
    decreases n,
{
    if n < 10 {
        String::from_str(digit_str(n))
    } else {
        let mut s = decimal_string(n / 10);
        s.append(digit_str(n % 10));
        s
    }
}

/// `prefix/name`.
pub fn sub_topic(prefix: &str, name: &str) -> (r: String)
    ensures
        r@ == topic(prefix@, name@),
{
    proof {
        reveal_strlit("/");
    }
    let mut t = String::from_str(prefix);
    t.append("/");
    t.append(name);
    t
}

/// A retained message whose payload is the decimal text of `value`.
fn reading_message(prefix: &str, name: &str, value: u32) -> (r: Message)
    ensures
        r.topic@ == topic(prefix@, name@),
        r.payload@ == decimal(value as nat),
        r.retained,
{
    Message { topic: sub_topic(prefix, name), payload: decimal_string(value), retained: true }
}

/// The messages that publish one particulate reading under `prefix`, in
/// sending order: the whole status, serialized as `status_json`, under
/// `prefix/status`, then each channel as decimal text under `prefix/pm10`,
/// `prefix/pm1_0` and `prefix/pm2_5`. Every message is retained.
pub fn status_messages(prefix: &str, status: &AirQualityStatus, status_json: String) -> (r: Vec<
    Message,
>)
    ensures
        r@.len() == 4,
        r@[0].topic@ == topic(prefix@, "status"@),
        r@[0].payload@ == status_json@,
        r@[1].topic@ == topic(prefix@, "pm10"@),
        r@[1].payload@ == decimal(status.pm_10 as nat),
        r@[2].topic@ == topic(prefix@, "pm1_0"@),
        r@[2].payload@ == decimal(status.pm_1_0 as nat),
        r@[3].topic@ == topic(prefix@, "pm2_5"@),
        r@[3].payload@ == decimal(status.pm_2_5 as nat),
        forall|i: int| 0 <= i < 4 ==> #[trigger] r@[i].retained,
{
    let mut r: Vec<Message> = Vec::new();
    r.push(Message { topic: sub_topic(prefix, "status"), payload: status_json, retained: true });
    r.push(reading_message(prefix, "pm10", status.pm_10));
    r.push(reading_message(prefix, "pm1_0", status.pm_1_0));
    r.push(reading_message(prefix, "pm2_5", status.pm_2_5));
    r
}

} // verus!
