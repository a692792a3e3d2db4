//! The attributes of streams, gathered record by record until every stream
//! is complete: by title, by stream, by attribute number.

use vstd::prelude::*;
use vstd::std_specs::hash::*;

use crate::mkvcon::streams::id_map_view;
use std::collections::HashMap;

verus! {

broadcast use vstd::std_specs::hash::group_hash_axioms;

/// Attribute values by title, stream and attribute number.
pub type StreamsByTitle = Map<usize, Map<usize, Map<u32, Seq<char>>>>;

/// The cache holds attributes of stream `sid` of title `tid`.
pub open spec fn has_stream(c: StreamsByTitle, tid: usize, sid: usize) -> bool {
    c.contains_key(tid) && c[tid].contains_key(sid)
}

/// The cache after attribute `attr` of stream `sid` of title `tid` was
/// given `value`.
pub open spec fn cache_insert(c: StreamsByTitle, tid: usize, sid: usize, attr: u32, value: Seq<char>) -> StreamsByTitle {
    let t = if c.contains_key(tid) { c[tid] } else { Map::empty() };
    let s = if t.contains_key(sid) { t[sid] } else { Map::empty() };
    c.insert(tid, t.insert(sid, s.insert(attr, value)))
}

/// The gathered attributes, with the streams in the order in which they
/// first appeared.
#[derive(Debug)]
pub struct StreamCache {
    attributes: HashMap<usize, HashMap<usize, HashMap<u32, String>>>,
    order: Vec<(usize, usize)>,
}

/// The views of a title's streams.
pub open spec fn title_streams_view(m: Map<usize, HashMap<u32, String>>) -> Map<usize, Map<u32, Seq<char>>> {
    Map::new(|s: usize| m.contains_key(s), |s: usize| id_map_view(m[s]@))
}

/// The views of all titles' streams.
pub open spec fn cache_view(m: Map<usize, HashMap<usize, HashMap<u32, String>>>) -> StreamsByTitle {
    Map::new(|t: usize| m.contains_key(t), |t: usize| title_streams_view(m[t]@))
}

impl View for StreamCache {
    type V = StreamsByTitle;

    closed spec fn view(&self) -> StreamsByTitle {
        cache_view(self.attributes@)
    }
}

impl StreamCache {
    /// The streams in the order in which they first appeared.
    pub closed spec fn order(&self) -> Seq<(usize, usize)> {
        self.order@
    }

    /// The order lists each stream of the cache once, and nothing else.
    pub open spec fn well_formed(&self) -> bool {
        &&& self.order().no_duplicates()
        &&& forall|i: int|
            0 <= i < self.order().len() ==> has_stream(self@, #[trigger] self.order()[i].0, self.order()[i].1)
        &&& forall|tid: usize, sid: usize|
            has_stream(self@, tid, sid) ==> #[trigger] self.order().contains((tid, sid))
    }

    /// A cache without streams.
    pub fn new() -> (r: Self)
        ensures
            r.well_formed(),
            r@ == StreamsByTitle::empty(),
            r.order() == Seq::<(usize, usize)>::empty(),
    {
        let r = StreamCache { attributes: HashMap::new(), order: Vec::new() };
        assert(cache_view(r.attributes@) =~= StreamsByTitle::empty());
        r
    }

    /// Sets attribute `attr` of stream `sid` of title `tid`; a new stream
    /// joins the end of the order.
    pub fn insert(&mut self, tid: usize, sid: usize, attr: u32, value: String)
        requires
            old(self).well_formed(),
        ensures
            final(self).well_formed(),
            final(self)@ == cache_insert(old(self)@, tid, sid, attr, value@),
            has_stream(old(self)@, tid, sid) ==> final(self).order() == old(self).order(),
            !has_stream(old(self)@, tid, sid) ==> final(self).order() == old(self).order().push((tid, sid)),
    {
        let ghost before = self.attributes@;
        let ghost vb = self@;
        let ghost ob = self.order@;
        let mut tmap = match self.attributes.remove(&tid) {
            Some(x) => x,
            None => HashMap::new(),
        };
        let ghost tb = tmap@;
        assert(title_streams_view(tb) =~= (if vb.contains_key(tid) { vb[tid] } else { Map::empty() }));
        let (mut smap, fresh) = match tmap.remove(&sid) {
            Some(x) => (x, false),
            None => (HashMap::new(), true),
        };
        let ghost sb = smap@;
        assert(id_map_view(sb) =~= (if title_streams_view(tb).contains_key(sid) {
            title_streams_view(tb)[sid]
        } else {
            Map::empty()
        }));
        assert(fresh == !has_stream(vb, tid, sid));
        smap.insert(attr, value);
        assert(id_map_view(smap@) =~= id_map_view(sb).insert(attr, value@));
        tmap.insert(sid, smap);
        assert(title_streams_view(tmap@) =~= title_streams_view(tb).insert(sid, id_map_view(smap@)));
        self.attributes.insert(tid, tmap);
        assert(cache_view(self.attributes@) =~= cache_view(before).insert(tid, title_streams_view(tmap@)));
        assert(self@ =~= cache_insert(vb, tid, sid, attr, value@));
        if fresh {
            self.order.push((tid, sid));
            proof {
                if ob.contains((tid, sid)) {
                    let j = choose|j: int| 0 <= j < ob.len() && ob[j] == (tid, sid);
                    assert(has_stream(vb, ob[j].0, ob[j].1));
                }
                assert(!ob.contains((tid, sid)));
                assert forall|i: int| 0 <= i < self.order@.len() implies has_stream(
                    self@,
                    #[trigger] self.order@[i].0,
                    self.order@[i].1,
                ) by {
                    if i < ob.len() {
                        assert(self.order@[i] == ob[i]);
                    }
                }
                assert forall|t: usize, s: usize| has_stream(self@, t, s) implies #[trigger] self.order@.contains(
                    (t, s),
                ) by {
                    if t != tid || s != sid {
                        assert(has_stream(vb, t, s));
                        assert(ob.contains((t, s)));
                        let j = choose|j: int| 0 <= j < ob.len() && ob[j] == (t, s);
                        assert(self.order@[j] == (t, s));
                    } else {
                        assert(self.order@[ob.len() as int] == (t, s));
                    }
                }
            }
        } else {
            proof {
                assert forall|t: usize, s: usize| has_stream(self@, t, s) implies #[trigger] self.order@.contains(
                    (t, s),
                ) by {
                    if t != tid || s != sid {
                        assert(has_stream(vb, t, s));
                    }
                }
            }
        }
    }

    /// A copy with the same content.
    pub fn duplicate(&self) -> (r: Self)
        requires
            self.well_formed(),
        ensures
            r.well_formed(),
            r@ == self@,
            r.order() == self.order(),
    {
        let attributes = self.attributes.clone();
        let mut order: Vec<(usize, usize)> = Vec::new();
        let mut i: usize = 0;
        while i < self.order.len()
            invariant
                i <= self.order@.len(),
                order@ == self.order@.subrange(0, i as int),
            decreases self.order@.len() - i,
        {
            order.push(self.order[i]);
            i = i + 1;
        }
        assert(order@ == self.order@);
        StreamCache { attributes, order }
    }

    /// The number of streams.
    pub fn len(&self) -> (r: usize)
        ensures
            r == self.order().len(),
    {
        self.order.len()
    }

    /// The title and stream number of the `i`-th stream in the order.
    pub fn key(&self, i: usize) -> (r: (usize, usize))
        requires
            i < self.order().len(),
        ensures
            r == self.order()[i as int],
    {
        self.order[i]
    }

    /// The attributes of stream `sid` of title `tid`.
    pub fn attributes_of(&self, tid: usize, sid: usize) -> (r: &HashMap<u32, String>)
        requires
            has_stream(self@, tid, sid),
        ensures
            id_map_view(r@) == self@[tid][sid],
    {
        let t = self.attributes.get(&tid).unwrap();
        t.get(&sid).unwrap()
    }
}

} // verus!
