//! The descriptor of a request that is being assembled.

use crate::headers::{
    copy_headers, empty_headers, fit_together, header_entries, merge_headers, merged, no_entries,
};
use reqwest::header::HeaderMap;
use vstd::prelude::*;

verus! {

/// A pending GET request: the address it goes to, the query parameters to
/// append to that address, and its headers. Its body is always empty.
#[derive(Debug)]
pub struct RequestDescriptor {
    url: String,
    query: Vec<(String, String)>,
    headers: HeaderMap,
}

/// What a descriptor says, in mathematical terms.
#[verifier::ext_equal]
pub struct DescriptorView {
    /// The resolved address.
    pub url: Seq<char>,
    /// The query parameters, in the order in which they were supplied.
    pub query: Seq<(Seq<char>, Seq<char>)>,
    /// For each header name, its values in order.
    pub headers: Map<Seq<char>, Seq<Seq<u8>>>,
}

/// Name and value pairs with their texts as sequences of characters.
pub open spec fn text_pairs(pairs: Seq<(String, String)>) -> Seq<(Seq<char>, Seq<char>)> {
    pairs.map_values(|pair: (String, String)| (pair.0@, pair.1@))
}

/// Text pairs go through concatenation.
pub proof fn text_pairs_concat(first: Seq<(String, String)>, second: Seq<(String, String)>)
    ensures
        text_pairs(first + second) == text_pairs(first) + text_pairs(second),
{
    assert(text_pairs(first + second) =~= text_pairs(first) + text_pairs(second));
}

impl View for RequestDescriptor {
    type V = DescriptorView;

    closed spec fn view(&self) -> DescriptorView {
        DescriptorView {
            url: self.url@,
            query: text_pairs(self.query@),
            headers: header_entries(self.headers),
        }
    }
}

impl RequestDescriptor {
    /// A request to `url` without query parameters or headers.
    pub fn new(url: String) -> (r: RequestDescriptor)
        ensures
            r@ == (DescriptorView { url: url@, query: Seq::empty(), headers: no_entries() }),
    {
        let r = RequestDescriptor { url, query: Vec::new(), headers: empty_headers() };
        assert(text_pairs(r.query@) =~= Seq::empty());
        r
    }

    /// The address of the request.
    pub fn url(&self) -> (r: &str)
        ensures
            r@ == self@.url,
    {
        self.url.as_str()
    }

    /// The query parameters of the request.
    pub fn query(&self) -> (r: &Vec<(String, String)>)
        ensures
            text_pairs(r@) == self@.query,
    {
        &self.query
    }

    /// The headers of the request.
    pub fn headers(&self) -> (r: &HeaderMap)
        ensures
            header_entries(*r) == self@.headers,
    {
        &self.headers
    }

    /// The descriptor with `params` behind the parameters it already has:
    /// each pair is kept, in the order supplied, whether or not its name
    /// occurs already.
    pub fn with_query(self, params: &Vec<(String, String)>) -> (r: RequestDescriptor)
        ensures
            r@ == (DescriptorView { query: self@.query + text_pairs(params@), ..self@ }),
    {
        let mut descriptor = self;
        let ghost before = descriptor.query@;
        let mut i: usize = 0;
        while i < params.len()
            invariant
                i <= params.len(),
                descriptor.url == self.url,
                descriptor.headers == self.headers,
                descriptor.query@ == before + params@.subrange(0, i as int),
            decreases params.len() - i,
        {
            let pair = &params[i];
            descriptor.query.push((pair.0.clone(), pair.1.clone()));
            proof {
                assert(params@.subrange(0, i + 1) =~= params@.subrange(0, i as int).push(
                    params@[i as int],
                ));
            }
            i += 1;
        }
        proof {
            assert(params@.subrange(0, i as int) =~= params@);
            text_pairs_concat(before, params@);
        }
        descriptor
    }

    /// The descriptor with `supplied` merged into its headers: a name that
    /// `supplied` holds gets the values of `supplied`, every other header
    /// stays.
    pub fn with_headers(self, supplied: &HeaderMap) -> (r: RequestDescriptor)
        requires
            fit_together(self@.headers, header_entries(*supplied)),
        ensures
            r@ == (DescriptorView {
                headers: merged(self@.headers, header_entries(*supplied)),
                ..self@
            }),
    {
        let mut descriptor = self;
        merge_headers(&mut descriptor.headers, copy_headers(supplied));
        descriptor
    }
}

} // verus!
