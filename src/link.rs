use vstd::prelude::*;

verus! {

/// A hypermedia reference: a relation name, a media type and a target.
#[derive(Debug, Clone)]
pub struct Link {
    pub rel: String,
    pub media_type: String,
    pub href: String,
}

/// A document of the service that carries a list of links.
#[derive(Debug, Clone)]
pub struct Resource {
    pub link: Vec<Link>,
}

/// What a link is looked up by: its relation name or its media type.
#[derive(Debug, Clone)]
pub enum LinkQuery {
    Rel(String),
    MediaType(String),
}

/// The mathematical form of a [`LinkQuery`].
pub enum LinkKey {
    Rel(Seq<char>),
    MediaType(Seq<char>),
}

impl View for LinkQuery {
    type V = LinkKey;

    open spec fn view(&self) -> LinkKey {
        match self {
            LinkQuery::Rel(r) => LinkKey::Rel(r@),
            LinkQuery::MediaType(t) => LinkKey::MediaType(t@),
        }
    }
}

/// Whether `l` answers the query `q`.
pub open spec fn link_matches(l: Link, q: LinkKey) -> bool {
    match q {
        LinkKey::Rel(r) => l.rel@ == r,
        LinkKey::MediaType(t) => l.media_type@ == t,
    }
}

/// The target of the first link of `links` that answers `q`, if any.
pub open spec fn first_href_of(links: Seq<Link>, q: LinkKey) -> Option<Seq<char>>
    decreases links.len(),
{
    if links.len() == 0 {
        None
    } else if link_matches(links[0], q) {
        Some(links[0].href@)
    } else {
        first_href_of(links.drop_first(), q)
    }
}

/// The links of `rs`, one resource after the other.
pub open spec fn resource_links(rs: Seq<Resource>) -> Seq<Seq<Link>> {
    rs.map_values(|r: Resource| r.link@)
}

/// The target of the first link that answers `q` among `groups`, taken in order.
pub open spec fn first_href_nested(groups: Seq<Seq<Link>>, q: LinkKey) -> Option<Seq<char>>
    decreases groups.len(),
{
    if groups.len() == 0 {
        None
    } else {
        match first_href_of(groups[0], q) {
            Some(h) => Some(h),
            None => first_href_nested(groups.drop_first(), q),
        }
    }
}

impl LinkQuery {
    /// Whether `l` answers this query.
    pub fn matches(&self, l: &Link) -> (r: bool)
        ensures
            r == link_matches(*l, self@),
    {
        match self {
            LinkQuery::Rel(r) => l.rel == *r,
            LinkQuery::MediaType(t) => l.media_type == *t,
        }
    }
}

proof fn lemma_first_href_step(links: Seq<Link>, i: int, q: LinkKey)
    requires
        0 <= i < links.len(),
    ensures
        first_href_of(links.subrange(i, links.len() as int), q) == (if link_matches(links[i], q) {
            Some(links[i].href@)
        } else {
            first_href_of(links.subrange(i + 1, links.len() as int), q)
        }),
{
    let s = links.subrange(i, links.len() as int);
    assert(s.drop_first() =~= links.subrange(i + 1, links.len() as int));
}

/// The target of the first link of `links` that answers `q`, in order.
pub fn first_href(links: &Vec<Link>, q: &LinkQuery) -> (r: Option<String>)
    ensures
        r.is_some() == first_href_of(links@, q@).is_some(),
        r.is_some() ==> r.unwrap()@ == first_href_of(links@, q@).unwrap(),
{
    let mut i: usize = 0;
    proof {
        assert(links@.subrange(0, links@.len() as int) =~= links@);
    }
    while i < links.len()
        invariant
            i <= links@.len(),
            first_href_of(links@, q@) == first_href_of(
                links@.subrange(i as int, links@.len() as int),
                q@,
            ),
        decreases links@.len() - i,
    {
        proof {
            lemma_first_href_step(links@, i as int, q@);
        }
        if q.matches(&links[i]) {
            return Some(links[i].href.clone());
        }
        i = i + 1;
    }
    None
}

/// The target of the first link that answers `q` in the links of `resources`,
/// the resources taken in order and the links of each in order.
pub fn first_href_in(resources: &Vec<Resource>, q: &LinkQuery) -> (r: Option<String>)
    ensures
        r.is_some() == first_href_nested(resource_links(resources@), q@).is_some(),
        r.is_some() ==> r.unwrap()@ == first_href_nested(resource_links(resources@), q@).unwrap(),
{
    let ghost groups = resource_links(resources@);
    let mut i: usize = 0;
    proof {
        assert(groups.subrange(0, groups.len() as int) =~= groups);
    }
    while i < resources.len()
        invariant
            i <= resources@.len(),
            groups == resource_links(resources@),
            groups.len() == resources@.len(),
            first_href_nested(groups, q@) == first_href_nested(
                groups.subrange(i as int, groups.len() as int),
                q@,
            ),
        decreases resources@.len() - i,
    {
        proof {
            let s = groups.subrange(i as int, groups.len() as int);
            assert(s.drop_first() =~= groups.subrange(i + 1, groups.len() as int));
            assert(s[0] == resources@[i as int].link@);
        }
        let found = first_href(&resources[i].link, q);
        if found.is_some() {
            return found;
        }
        i = i + 1;
    }
    None
}

} // verus!
