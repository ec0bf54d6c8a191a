use vstd::prelude::*;

verus! {

/// The map that a list of header entries denotes: a later entry for a name
/// replaces an earlier one.
pub open spec fn header_map(s: Seq<(String, String)>) -> Map<Seq<char>, Seq<char>>
    decreases s.len(),
{
    if s.len() == 0 {
        Map::empty()
    } else {
        header_map(s.drop_last()).insert(s.last().0@, s.last().1@)
    }
}

/// When no entry from `i` on carries the name `k`, the entries before `i`
/// decide what `k` maps to.
proof fn lemma_header_map_prefix(s: Seq<(String, String)>, i: int, k: Seq<char>)
    requires
        0 <= i <= s.len(),
        forall|j: int| i <= j < s.len() ==> s[j].0@ != k,
    ensures
        header_map(s).contains_key(k) == header_map(s.subrange(0, i)).contains_key(k),
        header_map(s).contains_key(k) ==> header_map(s)[k] == header_map(s.subrange(0, i))[k],
    decreases s.len() - i,
{
    if i < s.len() {
        let t = s.drop_last();
        assert(forall|j: int| i <= j < t.len() ==> t[j] == s[j]);
        lemma_header_map_prefix(t, i, k);
        assert(t.subrange(0, i) =~= s.subrange(0, i));
    } else {
        assert(s.subrange(0, i) =~= s);
    }
}

/// Header fields of a request or a response: a map from names to values.
#[derive(Debug)]
pub struct Headers {
    entries: Vec<(String, String)>,
}

impl View for Headers {
    type V = Map<Seq<char>, Seq<char>>;

    closed spec fn view(&self) -> Map<Seq<char>, Seq<char>> {
        header_map(self.entries@)
    }
}

impl Headers {
    pub fn new() -> (r: Headers)
        ensures
            r@ == Map::<Seq<char>, Seq<char>>::empty(),
    {
        Headers { entries: Vec::new() }
    }

    /// Sets the value of `name`, replacing any earlier value.
    pub fn insert(&mut self, name: String, value: String)
        ensures
            final(self)@ == old(self)@.insert(name@, value@),
    {
        let ghost before = self.entries@;
        self.entries.push((name, value));
        assert(self.entries@.drop_last() =~= before);
    }

    /// The value of `name`, if it is set.
    pub fn get(&self, name: &String) -> (r: Option<String>)
        ensures
            r is None <==> !self@.contains_key(name@),
            r matches Some(v) ==> v@ == self@[name@],
    {
        let mut i: usize = self.entries.len();
        while i > 0
            invariant
                i <= self.entries@.len(),
                forall|j: int| i <= j < self.entries@.len() ==> self.entries@[j].0@ != name@,
            decreases i,
        {
            if self.entries[i - 1].0 == *name {
                proof {
                    let s = self.entries@;
                    lemma_header_map_prefix(s, i as int, name@);
                    assert(s.subrange(0, i as int).drop_last() =~= s.subrange(0, i - 1));
                }
                return Some(self.entries[i - 1].1.clone());
            }
            i = i - 1;
        }
        proof {
            lemma_header_map_prefix(self.entries@, 0, name@);
            assert(self.entries@.subrange(0, 0) =~= Seq::<(String, String)>::empty());
        }
        None
    }

    /// The entries in the order they were set; later ones replace earlier ones
    /// of the same name.
    pub fn entries(&self) -> (r: &Vec<(String, String)>)
        ensures
            header_map(r@) == self@,
    {
        &self.entries
    }
}

/// What a request denotes.
pub struct RequestView {
    pub target: Seq<char>,
    pub headers: Map<Seq<char>, Seq<char>>,
    pub body: Seq<u8>,
}

/// A request: target path and query, header fields, body.
#[derive(Debug)]
pub struct Request {
    pub path_and_query: String,
    pub headers: Headers,
    pub body: Vec<u8>,
}

impl View for Request {
    type V = RequestView;

    open spec fn view(&self) -> RequestView {
        RequestView { target: self.path_and_query@, headers: self.headers@, body: self.body@ }
    }
}

/// What a response denotes.
pub struct ResponseView {
    pub status: nat,
    pub headers: Map<Seq<char>, Seq<char>>,
    pub body: Seq<u8>,
}

/// A response: status code, header fields, body.
#[derive(Debug)]
pub struct Response {
    pub status: u32,
    pub headers: Headers,
    pub body: Vec<u8>,
}

impl View for Response {
    type V = ResponseView;

    open spec fn view(&self) -> ResponseView {
        ResponseView { status: self.status as nat, headers: self.headers@, body: self.body@ }
    }
}

} // verus!
