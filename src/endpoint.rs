use crate::parameter::{parameter_id, Parameter};
use vstd::prelude::*;
use vstd::string::StringExecFns;

verus! {

/// The root of the service's observation API.
pub open spec fn base_url() -> Seq<char> {
    "https://opendata-download-metobs.smhi.se/api/version/1.0"@
}

/// The character of a decimal digit.
pub open spec fn digit_char(d: nat) -> char {
    seq!['0', '1', '2', '3', '4', '5', '6', '7', '8', '9'][d as int]
}

/// The decimal form of `n`: no sign, no leading zeros.
pub open spec fn decimal(n: nat) -> Seq<char>
    decreases n,
{
    if n < 10 {
        seq![digit_char(n)]
    } else {
        decimal(n / 10).push(digit_char(n % 10))
    }
}

/// Relies on `u32`'s `ToString`, which writes the number in decimal.
#[verifier::external_body]
fn decimal_text(n: u32) -> (r: String)
    ensures
        r@ == decimal(n as nat),
{
    n.to_string()
}

/// The address of the list of stations that measure `p`.
pub fn stations_url(p: &Parameter) -> (r: String)
    ensures
        r@ == base_url() + "/parameter/"@ + decimal(parameter_id(*p) as nat) + ".json"@,
{
    let mut url = String::from_str("https://opendata-download-metobs.smhi.se/api/version/1.0");
    url.append("/parameter/");
    let id = decimal_text(p.id() as u32);
    url.append(id.as_str());
    url.append(".json");
    url
}

/// The address of the periods of station `station_id` for parameter `p`.
pub fn periods_url(p: &Parameter, station_id: u32) -> (r: String)
    ensures
        r@ == base_url() + "/parameter/"@ + decimal(parameter_id(*p) as nat) + "/station/"@
            + decimal(station_id as nat) + "/period.json"@,
{
    let mut url = String::from_str("https://opendata-download-metobs.smhi.se/api/version/1.0");
    url.append("/parameter/");
    let id = decimal_text(p.id() as u32);
    url.append(id.as_str());
    url.append("/station/");
    let station = decimal_text(station_id);
    url.append(station.as_str());
    url.append("/period.json");
    url
}

} // verus!
