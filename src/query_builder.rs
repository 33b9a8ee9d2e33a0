use vstd::prelude::*;

use crate::text::{comma_joined, decimal_text, join_commas, u64_to_decimal};

verus! {

/// The base address of the query service.
pub const CENSUS_URL: &'static str = "https://census.daybreakgames.com/";

/// The language queries ask for unless told otherwise.
pub const ENGLISH: &'static str = "en";

/// A query on one collection of the query service: what to embed, how many
/// records from where, in which language, and which fields to match.
#[derive(Clone, Debug)]
pub struct QueryBuilder {
    pub collection: String,
    pub serviceid: String,
    pub endpoint: String,
    pub resolves_vec: Vec<String>,
    pub search_vec: Vec<(String, String)>,
    pub limit: u64,
    pub start: u64,
    pub lang: String,
    pub should_retry: bool,
}

/// The pairs of a list of string pairs.
pub open spec fn pair_views(v: Seq<(String, String)>) -> Seq<(Seq<char>, Seq<char>)> {
    v.map_values(|p: (String, String)| (p.0@, p.1@))
}

impl QueryBuilder {
    /// The query's control parameters, in order: what to embed (where
    /// anything), the limit and the start (where not zero), the language
    /// (where not empty), and whether to retry.
    pub open spec fn commands(&self) -> Seq<(Seq<char>, Seq<char>)> {
        let resolve = if self.resolves_vec@.len() > 0 {
            seq![("c:resolve"@, comma_joined(self.resolves_vec@.map_values(|s: String| s@)))]
        } else {
            Seq::empty()
        };
        let limit = if self.limit > 0 {
            seq![("c:limit"@, decimal_text(self.limit as nat))]
        } else {
            Seq::empty()
        };
        let start = if self.start > 0 {
            seq![("c:start"@, decimal_text(self.start as nat))]
        } else {
            Seq::empty()
        };
        let lang = if self.lang@.len() > 0 {
            seq![("c:lang"@, self.lang@)]
        } else {
            Seq::empty()
        };
        resolve + limit + start + lang + seq![
            ("c:retry"@, if self.should_retry {
                "true"@
            } else {
                "false"@
            }),
        ]
    }

    /// The address of the query for `method` (such as `get`), before its parameters.
    pub open spec fn url(&self, method: Seq<char>) -> Seq<char> {
        "https://census.daybreakgames.com/s:"@ + self.serviceid@ + "/"@ + method + "/"@
            + self.endpoint@ + "/"@ + self.collection@ + "/"@
    }

    /// A query on `collection` that embeds nothing, matches everything, in English.
    pub fn new(serviceid: String, endpoint: String, collection: String) -> (r: QueryBuilder)
        ensures
            r.collection == collection,
            r.serviceid == serviceid,
            r.endpoint == endpoint,
            r.resolves_vec@.len() == 0,
            r.search_vec@.len() == 0,
            r.limit == 0,
            r.start == 0,
            r.lang@ == ENGLISH@,
            !r.should_retry,
    {
        QueryBuilder {
            collection,
            serviceid,
            endpoint,
            resolves_vec: Vec::new(),
            search_vec: Vec::new(),
            limit: 0,
            start: 0,
            lang: String::from_str(ENGLISH),
            should_retry: false,
        }
    }

    /// Also embeds the records named `res`.
    pub fn resolve(&mut self, res: &str)
        ensures
            final(self).resolves_vec@.map_values(|s: String| s@) == old(self).resolves_vec@.map_values(
                |s: String| s@,
            ).push(res@),
            final(self).search_vec == old(self).search_vec,
            final(self).limit == old(self).limit,
            final(self).start == old(self).start,
            final(self).lang == old(self).lang,
            final(self).should_retry == old(self).should_retry,
    {
        self.resolves_vec.push(String::from_str(res));
        assert(self.resolves_vec@.map_values(|s: String| s@) =~= old(self).resolves_vec@.map_values(
            |s: String| s@,
        ).push(res@));
    }

    /// Also embeds each of the records named in `res`, in order.
    pub fn resolves(&mut self, res: Vec<&str>)
        ensures
            final(self).resolves_vec@.map_values(|s: String| s@) == old(self).resolves_vec@.map_values(
                |s: String| s@,
            ) + res@.map_values(|s: &str| s@),
            final(self).search_vec == old(self).search_vec,
            final(self).limit == old(self).limit,
            final(self).start == old(self).start,
            final(self).lang == old(self).lang,
            final(self).should_retry == old(self).should_retry,
    {
        let ghost start = old(self).resolves_vec@.map_values(|s: String| s@);
        let ghost added = res@.map_values(|s: &str| s@);
        let n = res.len();
        let mut i: usize = 0;
        assert(added.subrange(0, 0).len() == 0);
        assert(start + added.subrange(0, 0) =~= start);
        while i < n
            invariant
                n == res@.len(),
                i <= n,
                added == res@.map_values(|s: &str| s@),
                self.resolves_vec@.map_values(|s: String| s@) == start + added.subrange(0, i as int),
                self.search_vec == old(self).search_vec,
                self.limit == old(self).limit,
                self.start == old(self).start,
                self.lang == old(self).lang,
                self.should_retry == old(self).should_retry,
            decreases n - i,
        {
            self.resolve(res[i]);
            assert(start + added.subrange(0, i + 1) =~= (start + added.subrange(0, i as int)).push(
                added[i as int],
            ));
            i = i + 1;
        }
        assert(added.subrange(0, n as int) =~= added);
    }

    pub fn limit(&mut self, limit: u64)
        ensures
            *final(self) == (QueryBuilder { limit, ..*old(self) }),
    {
        self.limit = limit;
    }

    pub fn start(&mut self, start: u64)
        ensures
            *final(self) == (QueryBuilder { start, ..*old(self) }),
    {
        self.start = start;
    }

    pub fn lang(&mut self, lang: &str)
        ensures
            final(self).lang@ == lang@,
            final(self).collection == old(self).collection,
            final(self).resolves_vec == old(self).resolves_vec,
            final(self).search_vec == old(self).search_vec,
            final(self).limit == old(self).limit,
            final(self).start == old(self).start,
            final(self).should_retry == old(self).should_retry,
    {
        self.lang = String::from_str(lang);
    }

    pub fn retry(&mut self, should_retry: bool)
        ensures
            *final(self) == (QueryBuilder { should_retry, ..*old(self) }),
    {
        self.should_retry = should_retry;
    }

    /// Also matches only records whose `field` is `value`.
    pub fn search(&mut self, field: String, value: String)
        ensures
            pair_views(final(self).search_vec@) == pair_views(old(self).search_vec@).push((field@, value@)),
            final(self).resolves_vec == old(self).resolves_vec,
            final(self).limit == old(self).limit,
            final(self).start == old(self).start,
            final(self).lang == old(self).lang,
            final(self).should_retry == old(self).should_retry,
    {
        let ghost f = field@;
        let ghost v = value@;
        self.search_vec.push((field, value));
        assert(pair_views(self.search_vec@) =~= pair_views(old(self).search_vec@).push((f, v)));
    }

    /// The query's control parameters.
    pub fn parse_commands(&self) -> (r: Vec<(String, String)>)
        ensures
            pair_views(r@) == self.commands(),
    {
        let mut cmd: Vec<(String, String)> = Vec::new();
        if self.resolves_vec.len() > 0 {
            cmd.push((String::from_str("c:resolve"), join_commas(&self.resolves_vec)));
        }
        if self.limit > 0 {
            cmd.push((String::from_str("c:limit"), u64_to_decimal(self.limit)));
        }
        if self.start > 0 {
            cmd.push((String::from_str("c:start"), u64_to_decimal(self.start)));
        }
        if self.lang.as_str().unicode_len() > 0 {
            cmd.push((String::from_str("c:lang"), self.lang.clone()));
        }
        let retry = if self.should_retry {
            "true"
        } else {
            "false"
        };
        cmd.push((String::from_str("c:retry"), String::from_str(retry)));
        assert(pair_views(cmd@) =~= self.commands());
        cmd
    }

    /// The address of the query for `method`, before its parameters.
    pub fn query_url(&self, method: &str) -> (r: String)
        ensures
            r@ == self.url(method@),
    {
        let mut url = String::from_str(CENSUS_URL);
        url.append("s:");
        url.append(self.serviceid.as_str());
        url.append("/");
        url.append(method);
        url.append("/");
        url.append(self.endpoint.as_str());
        url.append("/");
        url.append(self.collection.as_str());
        url.append("/");
        proof {
            reveal_strlit("https://census.daybreakgames.com/");
            reveal_strlit("s:");
            reveal_strlit("https://census.daybreakgames.com/s:");
        }
        assert(url@ =~= self.url(method@));
        url
    }
}

} // verus!
