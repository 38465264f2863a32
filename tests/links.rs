use metobs::{
    archive_data_url, first_href, first_href_in, latest_data_url, period_urls, Error, Link,
    LinkQuery, Parameter, Period, Resource,
};

fn link(rel: &str, media_type: &str, href: &str) -> Link {
    Link { rel: rel.to_string(), media_type: media_type.to_string(), href: href.to_string() }
}

fn period(key: &str, links: Vec<Link>) -> Period {
    Period { key: key.to_string(), title: String::new(), summary: String::new(), link: links }
}

fn json(href: &str) -> Link {
    link("period", "application/json", href)
}

#[test]
fn first_matching_link_wins() {
    let links = vec![
        link("data", "text/csv", "a"),
        link("meta", "application/json", "b"),
        link("data", "application/json", "c"),
    ];
    assert_eq!(first_href(&links, &LinkQuery::Rel("data".to_string())).unwrap(), "a");
    assert_eq!(
        first_href(&links, &LinkQuery::MediaType("application/json".to_string())).unwrap(),
        "b"
    );
    assert!(first_href(&links, &LinkQuery::Rel("none".to_string())).is_none());
    assert!(first_href(&vec![], &LinkQuery::Rel("data".to_string())).is_none());
}

#[test]
fn first_matching_link_across_resources() {
    let rs = vec![
        Resource { link: vec![link("meta", "text/plain", "x")] },
        Resource { link: vec![] },
        Resource { link: vec![link("data", "text/csv", "y"), link("data", "text/csv", "z")] },
    ];
    assert_eq!(first_href_in(&rs, &LinkQuery::Rel("data".to_string())).unwrap(), "y");
    assert!(first_href_in(&rs, &LinkQuery::Rel("other".to_string())).is_none());
}

#[test]
fn period_urls_found() {
    let ps = vec![
        period("latest-hour", vec![json("h")]),
        period("latest-months", vec![link("x", "application/xml", "m0"), json("m")]),
        period("corrected-archive", vec![json("a")]),
    ];
    let (a, m) = period_urls(&ps).unwrap();
    assert_eq!(a, "a");
    assert_eq!(m, "m");
}

#[test]
fn missing_latest_months_is_a_parse_error() {
    let ps = vec![period("corrected-archive", vec![json("a")]), period("latest-day", vec![json("d")])];
    match period_urls(&ps) {
        Err(Error::ParseError(m)) => {
            assert!(m.contains("latest-months"));
            assert_eq!(m, "Could not find latest-months in period.");
        }
        other => panic!("unexpected {:?}", other),
    }
}

#[test]
fn missing_archive_is_reported_first() {
    match period_urls(&vec![]) {
        Err(Error::ParseError(m)) => assert_eq!(m, "Could not find corrected-archive in period."),
        other => panic!("unexpected {:?}", other),
    }
    let ps = vec![
        period("corrected-archive", vec![link("x", "text/csv", "a")]),
        period("latest-months", vec![json("m")]),
    ];
    assert!(matches!(period_urls(&ps), Err(Error::ParseError(_))));
}

#[test]
fn data_urls() {
    let rs = vec![Resource { link: vec![json("j"), link("data", "text/plain", "csv")] }];
    assert_eq!(archive_data_url(&rs).unwrap(), "csv");
    assert_eq!(latest_data_url(&rs).unwrap(), "j");
    match archive_data_url(&vec![]) {
        Err(Error::ParseError(m)) => assert_eq!(m, "Could not find data in corrected-archive."),
        other => panic!("unexpected {:?}", other),
    }
    match latest_data_url(&vec![Resource { link: vec![] }]) {
        Err(Error::ParseError(m)) => assert_eq!(m, "Could not find json data in latest-months."),
        other => panic!("unexpected {:?}", other),
    }
}

#[test]
fn error_messages() {
    assert_eq!(Error::Throttling.message(), "Throttling.");
    assert_eq!(Error::NotFound.message(), "Not found.");
    assert_eq!(Error::ApiError(500, "body".to_string()).message(), "body");
    assert_eq!(Error::ParseError("p".to_string()).message(), "p");
}

#[test]
fn parameter_identifier() {
    assert_eq!(Parameter::AirTemperature.id(), 26);
}

#[test]
fn station_list_address() {
    assert_eq!(
        metobs::stations_url(&Parameter::AirTemperature),
        "https://opendata-download-metobs.smhi.se/api/version/1.0/parameter/26.json"
    );
}

#[test]
fn period_list_address() {
    assert_eq!(
        metobs::periods_url(&Parameter::AirTemperature, 188790),
        "https://opendata-download-metobs.smhi.se/api/version/1.0/parameter/26/station/188790/period.json"
    );
    assert_eq!(
        metobs::periods_url(&Parameter::AirTemperature, 0),
        "https://opendata-download-metobs.smhi.se/api/version/1.0/parameter/26/station/0/period.json"
    );
}
