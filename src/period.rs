use crate::error::Error;
use crate::link::{
    first_href, first_href_in, first_href_nested, first_href_of, resource_links, Link, LinkKey,
    LinkQuery, Resource,
};
use vstd::prelude::*;

verus! {

/// A named time bucket of a station's data, with links to its resources.
#[derive(Debug, Clone)]
pub struct Period {
    pub key: String,
    pub title: String,
    pub summary: String,
    pub link: Vec<Link>,
}

/// The key of the period that holds a station's full corrected history.
pub open spec fn archive_key() -> Seq<char> {
    "corrected-archive"@
}

/// The key of the period that holds a station's recent months.
pub open spec fn latest_key() -> Seq<char> {
    "latest-months"@
}

/// The media type of JSON documents.
pub open spec fn json_type() -> Seq<char> {
    "application/json"@
}

/// The first JSON link found in the periods of `ps` whose key is `key`, the
/// periods taken in order.
pub open spec fn period_href(ps: Seq<Period>, key: Seq<char>) -> Option<Seq<char>>
    decreases ps.len(),
{
    if ps.len() == 0 {
        None
    } else if ps[0].key@ == key && first_href_of(ps[0].link@, LinkKey::MediaType(json_type())).is_some() {
        first_href_of(ps[0].link@, LinkKey::MediaType(json_type()))
    } else {
        period_href(ps.drop_first(), key)
    }
}

/// The text of the error that reports a missing period.
pub open spec fn missing_period_text(key: Seq<char>) -> Seq<char> {
    "Could not find "@ + key + " in period."@
}

/// The JSON link of the first period of `periods` that has key `key` and a
/// JSON link.
fn find_period_href(periods: &Vec<Period>, key: &String, json: &LinkQuery) -> (r: Option<String>)
    requires
        json@ == LinkKey::MediaType(json_type()),
    ensures
        r.is_some() == period_href(periods@, key@).is_some(),
        r.is_some() ==> r.unwrap()@ == period_href(periods@, key@).unwrap(),
{
    let mut i: usize = 0;
    proof {
        assert(periods@.subrange(0, periods@.len() as int) =~= periods@);
    }
    while i < periods.len()
        invariant
            i <= periods@.len(),
            json@ == LinkKey::MediaType(json_type()),
            period_href(periods@, key@) == period_href(
                periods@.subrange(i as int, periods@.len() as int),
                key@,
            ),
        decreases periods@.len() - i,
    {
        proof {
            let s = periods@.subrange(i as int, periods@.len() as int);
            assert(s.drop_first() =~= periods@.subrange(i + 1, periods@.len() as int));
        }
        if periods[i].key == *key {
            let found = first_href(&periods[i].link, json);
            if found.is_some() {
                return found;
            }
        }
        i = i + 1;
    }
    None
}

/// The JSON links of the corrected-archive period and of the latest-months
/// period, in that order. The first period of each key that has a JSON link
/// gives it. Fails with a parse error that names the period that is missing,
/// the corrected archive first.
pub fn period_urls(periods: &Vec<Period>) -> (r: Result<(String, String), Error>)
    ensures
        match r {
            Ok((archive, latest)) => {
                &&& period_href(periods@, archive_key()) == Some(archive@)
                &&& period_href(periods@, latest_key()) == Some(latest@)
            },
            Err(Error::ParseError(m)) => {
                ||| (period_href(periods@, archive_key()).is_none() && m@ == missing_period_text(
                    archive_key(),
                ))
                ||| (period_href(periods@, archive_key()).is_some() && period_href(
                    periods@,
                    latest_key(),
                ).is_none() && m@ == missing_period_text(latest_key()))
            },
            Err(_) => false,
        },
{
    let json = LinkQuery::MediaType(String::from_str("application/json"));
    let archive = find_period_href(periods, &String::from_str("corrected-archive"), &json);
    let archive = match archive {
        Some(a) => a,
        None => {
            proof {
                reveal_strlit("Could not find ");
            }
            let m = String::from_str("Could not find corrected-archive in period.");
            proof {
                reveal_strlit("Could not find corrected-archive in period.");
                reveal_strlit("corrected-archive");
                reveal_strlit(" in period.");
                assert(m@ =~= missing_period_text(archive_key()));
            }
            return Err(Error::ParseError(m));
        },
    };
    let latest = find_period_href(periods, &String::from_str("latest-months"), &json);
    match latest {
        Some(l) => Ok((archive, l)),
        None => {
            let m = String::from_str("Could not find latest-months in period.");
            proof {
                reveal_strlit("Could not find ");
                reveal_strlit("Could not find latest-months in period.");
                reveal_strlit("latest-months");
                reveal_strlit(" in period.");
                assert(m@ =~= missing_period_text(latest_key()));
            }
            Err(Error::ParseError(m))
        },
    }
}

/// The target of the first link with relation `data` in the corrected-archive
/// document's resources: the address of the archive's CSV text. Fails with a
/// parse error when there is none.
pub fn archive_data_url(data: &Vec<Resource>) -> (r: Result<String, Error>)
    ensures
        match r {
            Ok(u) => first_href_nested(resource_links(data@), LinkKey::Rel("data"@)) == Some(u@),
            Err(Error::ParseError(m)) => {
                &&& first_href_nested(resource_links(data@), LinkKey::Rel("data"@)).is_none()
                &&& m@ == "Could not find data in corrected-archive."@
            },
            Err(_) => false,
        },
{
    let q = LinkQuery::Rel(String::from_str("data"));
    match first_href_in(data, &q) {
        Some(u) => Ok(u),
        None => Err(Error::ParseError(String::from_str("Could not find data in corrected-archive."))),
    }
}

/// The target of the first JSON link in the latest-months document's
/// resources: the address of the recent entries. Fails with a parse error
/// when there is none.
pub fn latest_data_url(data: &Vec<Resource>) -> (r: Result<String, Error>)
    ensures
        match r {
            Ok(u) => first_href_nested(resource_links(data@), LinkKey::MediaType(json_type()))
                == Some(u@),
            Err(Error::ParseError(m)) => {
                &&& first_href_nested(resource_links(data@), LinkKey::MediaType(json_type())).is_none()
                &&& m@ == "Could not find json data in latest-months."@
            },
            Err(_) => false,
        },
{
    let q = LinkQuery::MediaType(String::from_str("application/json"));
    match first_href_in(data, &q) {
        Some(u) => Ok(u),
        None => Err(Error::ParseError(String::from_str("Could not find json data in latest-months."))),
    }
}

} // verus!
