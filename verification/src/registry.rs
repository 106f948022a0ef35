//! The shared room registry: a mapping from room name to room, created
//! lazily on first join and never removed. Each room owns an append-only
//! transcript of rendered lines and a distribution point; a publish
//! appends the line to the transcript and then hands the whole transcript
//! to the distribution point, so a late reader and a live subscriber
//! never see a published line out of transcript order.

use vstd::prelude::*;
use vstd::string::*;

use crate::fanout::{new_distribution, send_text, subscribe_to};

verus! {

/// How many pending texts each subscriber may buffer before best-effort
/// delivery drops the oldest.
pub const SUBSCRIBER_BUFFER: usize = 100;

/// One room: its immutable name, its transcript and its distribution
/// point.
struct Room {
    name: String,
    transcript: Vec<String>,
    tx: tokio::sync::broadcast::Sender<String>,
}

/// The transcript joined into the one text a subscriber is shown.
pub open spec fn joined_text(lines: Seq<Seq<char>>) -> Seq<char>
    decreases lines.len(),
{
    if lines.len() == 0 {
        Seq::empty()
    } else {
        joined_text(lines.drop_last()) + lines.last()
    }
}

/// Builds `joined_text` of a transcript.
fn full_text(transcript: &Vec<String>) -> (r: String)
    ensures
        r@ == joined_text(transcript@.map_values(|s: String| s@)),
{
    let mut r = String::new();
    let n = transcript.len();
    let mut i: usize = 0;
    while i < n
        invariant
            i <= n,
            n == transcript@.len(),
            r@ == joined_text(transcript@.map_values(|s: String| s@).take(i as int)),
        decreases n - i,
    {
        let ghost lines = transcript@.map_values(|s: String| s@);
        r.append(transcript[i].as_str());
        proof {
            assert(lines.take(i + 1).drop_last() =~= lines.take(i as int));
            assert(lines.take(i + 1).last() == lines[i as int]);
        }
        i = i + 1;
    }
    proof {
        assert(transcript@.map_values(|s: String| s@).take(n as int) =~= transcript@.map_values(
            |s: String| s@,
        ));
    }
    r
}

/// The registry of all rooms.
pub struct Registry {
    rooms: Vec<Room>,
}

impl Registry {
    /// Room names are pairwise distinct: at most one room ever exists per
    /// name.
    pub closed spec fn wf(self) -> bool {
        forall|i: int, j: int|
            #![trigger self.rooms@[i], self.rooms@[j]]
            0 <= i < j < self.rooms@.len() ==> self.rooms@[i].name@ != self.rooms@[j].name@
    }

    /// Whether a room of this name exists.
    pub closed spec fn has_room(self, n: Seq<char>) -> bool {
        exists|i: int| 0 <= i < self.rooms@.len() && self.rooms@[i].name@ == n
    }

    spec fn idx(self, n: Seq<char>) -> int {
        choose|i: int| 0 <= i < self.rooms@.len() && self.rooms@[i].name@ == n
    }

    /// The transcript of the room of this name, as its sequence of lines.
    pub closed spec fn lines(self, n: Seq<char>) -> Seq<Seq<char>> {
        self.rooms@[self.idx(n)].transcript@.map_values(|s: String| s@)
    }

    /// How many rooms exist.
    pub closed spec fn room_count_spec(self) -> nat {
        self.rooms@.len()
    }

    proof fn lemma_idx(self, n: Seq<char>, i: int)
        requires
            self.wf(),
            0 <= i < self.rooms@.len(),
            self.rooms@[i].name@ == n,
        ensures
            self.has_room(n),
            self.idx(n) == i,
    {
        assert(self.has_room(n));
        let j = self.idx(n);
        if j < i {
            assert(self.rooms@[j].name@ != self.rooms@[i].name@);
        } else if i < j {
            assert(self.rooms@[i].name@ != self.rooms@[j].name@);
        }
    }

    /// A fresh registry with no room.
    pub fn new() -> (r: Registry)
        ensures
            r.wf(),
            r.room_count_spec() == 0,
            forall|n: Seq<char>| !r.has_room(n),
    {
        Registry { rooms: Vec::new() }
    }

    /// `room_count_spec`, for callers.
    pub fn room_count(&self) -> (n: usize)
        ensures
            n == self.room_count_spec(),
    {
        self.rooms.len()
    }

    /// Looks the room up, creating it on first join with an empty
    /// transcript and a fresh distribution point, and subscribes: the
    /// returned receiver sees every publish to the room from now on,
    /// buffer permitting.
    pub fn join(&mut self, name: &str) -> (rx: tokio::sync::broadcast::Receiver<String>)
        requires
            old(self).wf(),
        ensures
            final(self).wf(),
            join_post(*old(self), *final(self), name@),
    {
        let name_owned = String::from_str(name);
        let n = self.rooms.len();
        let mut i: usize = 0;
        while i < n
            invariant
                i <= n,
                n == self.rooms@.len(),
                name_owned@ == name@,
                *self == *old(self),
                self.wf(),
                forall|j: int| 0 <= j < i ==> self.rooms@[j].name@ != name@,
            decreases n - i,
        {
            if self.rooms[i].name == name_owned {
                proof {
                    self.lemma_idx(name@, i as int);
                }
                let rx = subscribe_to(&self.rooms[i].tx);
                return rx;
            }
            i = i + 1;
        }
        assert(!self.has_room(name@));
        let tx = new_distribution(SUBSCRIBER_BUFFER);
        let rx = subscribe_to(&tx);
        let room = Room { name: String::from_str(name), transcript: Vec::new(), tx };
        self.rooms.push(room);
        proof {
            let ghost pre = *old(self);
            let ghost post = *self;
            assert forall|a: int, b: int|
                #![trigger post.rooms@[a], post.rooms@[b]]
                0 <= a < b < post.rooms@.len() implies post.rooms@[a].name@ != post.rooms@[b].name@ by {
                if b < post.rooms@.len() - 1 {
                    assert(pre.rooms@[a].name@ != pre.rooms@[b].name@);
                } else {
                    assert(pre.rooms@[a].name@ != name@);
                }
            }
            post.lemma_idx(name@, post.rooms@.len() - 1);
            assert(post.lines(name@) =~= Seq::<Seq<char>>::empty());
            assert forall|m: Seq<char>| pre.has_room(m) implies post.has_room(m) by {
                let w = choose|i: int| 0 <= i < pre.rooms@.len() && pre.rooms@[i].name@ == m;
                assert(post.rooms@[w].name@ == m);
            }
            assert forall|m: Seq<char>| m != name@ && pre.has_room(m) implies post.lines(m)
                == pre.lines(m) by {
                let w = choose|i: int| 0 <= i < pre.rooms@.len() && pre.rooms@[i].name@ == m;
                pre.lemma_idx(m, w);
                post.lemma_idx(m, w);
            }
            assert forall|m: Seq<char>| post.has_room(m) implies pre.has_room(m) || m == name@ by {
                let w = choose|i: int| 0 <= i < post.rooms@.len() && post.rooms@[i].name@ == m;
                if w < pre.rooms@.len() {
                    assert(pre.rooms@[w].name@ == m);
                }
            }
        }
        rx
    }

    /// Appends the line to the room's transcript and hands the whole
    /// transcript to the room's distribution point, in that order. A
    /// publish to an absent room changes nothing.
    pub fn publish(&mut self, name: &str, line: String)
        requires
            old(self).wf(),
        ensures
            final(self).wf(),
            publish_post(*old(self), *final(self), name@, line@),
    {
        let name_owned = String::from_str(name);
        let n = self.rooms.len();
        let mut i: usize = 0;
        while i < n
            invariant
                i <= n,
                n == self.rooms@.len(),
                name_owned@ == name@,
                *self == *old(self),
                self.wf(),
                forall|j: int| 0 <= j < i ==> self.rooms@[j].name@ != name@,
            decreases n - i,
        {
            if self.rooms[i].name == name_owned {
                proof {
                    self.lemma_idx(name@, i as int);
                }
                let ghost pre = *old(self);
                let room = &mut self.rooms[i];
                room.transcript.push(line);
                let text = full_text(&room.transcript);
                send_text(&room.tx, text);
                proof {
                    let ghost post = *self;
                    assert(post.rooms@.len() == pre.rooms@.len());
                    assert(forall|j: int|
                        0 <= j < pre.rooms@.len() && j != i ==> post.rooms@[j] == pre.rooms@[j]);
                    assert(post.rooms@[i as int].name@ == name@);
                    assert(post.rooms@[i as int].transcript@ == pre.rooms@[i as int].transcript@
                        .push(line));
                    assert forall|a: int, b: int|
                        #![trigger post.rooms@[a], post.rooms@[b]]
                        0 <= a < b < post.rooms@.len() implies post.rooms@[a].name@
                        != post.rooms@[b].name@ by {
                        assert(pre.rooms@[a].name@ != pre.rooms@[b].name@);
                    }
                    post.lemma_idx(name@, i as int);
                    assert(post.lines(name@) =~= pre.lines(name@).push(line@));
                    assert forall|m: Seq<char>| post.has_room(m) == pre.has_room(m) by {
                        if pre.has_room(m) {
                            let w = choose|k: int|
                                0 <= k < pre.rooms@.len() && pre.rooms@[k].name@ == m;
                            assert(post.rooms@[w].name@ == m);
                        }
                        if post.has_room(m) {
                            let w = choose|k: int|
                                0 <= k < post.rooms@.len() && post.rooms@[k].name@ == m;
                            assert(pre.rooms@[w].name@ == m);
                        }
                    }
                    assert forall|m: Seq<char>| m != name@ && pre.has_room(m) implies post.lines(m)
                        == pre.lines(m) by {
                        let w = choose|k: int| 0 <= k < pre.rooms@.len() && pre.rooms@[k].name@ == m;
                        pre.lemma_idx(m, w);
                        post.lemma_idx(m, w);
                    }
                }
                return ;
            }
            i = i + 1;
        }
        assert(!self.has_room(name@));
    }

    /// The room's transcript as one text, or nothing when the room does
    /// not exist.
    pub fn transcript_text(&self, name: &str) -> (r: Option<String>)
        requires
            self.wf(),
        ensures
            match r {
                Some(t) => self.has_room(name@) && t@ == joined_text(self.lines(name@)),
                None => !self.has_room(name@),
            },
    {
        let name_owned = String::from_str(name);
        let n = self.rooms.len();
        let mut i: usize = 0;
        while i < n
            invariant
                i <= n,
                n == self.rooms@.len(),
                name_owned@ == name@,
                self.wf(),
                forall|j: int| 0 <= j < i ==> self.rooms@[j].name@ != name@,
            decreases n - i,
        {
            if self.rooms[i].name == name_owned {
                proof {
                    self.lemma_idx(name@, i as int);
                }
                return Some(full_text(&self.rooms[i].transcript));
            }
            i = i + 1;
        }
        None
    }
}

/// What one join does to the abstract state: the room of this name exists
/// afterwards, no other room appears or disappears, a room is created
/// exactly when the name was absent, and every transcript — including, on
/// a rejoin, the joined room's — is untouched.
pub open spec fn join_post(pre: Registry, post: Registry, n: Seq<char>) -> bool {
    &&& post.has_room(n)
    &&& forall|m: Seq<char>| pre.has_room(m) ==> post.has_room(m)
    &&& forall|m: Seq<char>| post.has_room(m) ==> pre.has_room(m) || m == n
    &&& post.room_count_spec() == pre.room_count_spec() + if pre.has_room(n) {
        0int
    } else {
        1int
    }
    &&& post.lines(n) == if pre.has_room(n) {
        pre.lines(n)
    } else {
        Seq::<Seq<char>>::empty()
    }
    &&& forall|m: Seq<char>| m != n && pre.has_room(m) ==> post.lines(m) == pre.lines(m)
}

/// What one publish does to the abstract state: with the room present its
/// transcript grows by exactly the one line and nothing else changes;
/// with it absent, nothing changes at all.
pub open spec fn publish_post(pre: Registry, post: Registry, n: Seq<char>, line: Seq<char>) -> bool {
    if pre.has_room(n) {
        &&& forall|m: Seq<char>| post.has_room(m) == pre.has_room(m)
        &&& post.room_count_spec() == pre.room_count_spec()
        &&& post.lines(n) == pre.lines(n).push(line)
        &&& forall|m: Seq<char>| m != n && pre.has_room(m) ==> post.lines(m) == pre.lines(m)
    } else {
        post == pre
    }
}

/// Law: room creation is idempotent. Once a join has made the room, a
/// further join of the same name creates nothing and leaves every
/// transcript as it was; concurrent first-time joins, serialized under
/// the registry's lock, thus yield exactly one room.
pub proof fn lemma_join_idempotent(a: Registry, b: Registry, c: Registry, n: Seq<char>)
    requires
        join_post(a, b, n),
        join_post(b, c, n),
    ensures
        c.room_count_spec() == b.room_count_spec(),
        forall|m: Seq<char>| c.has_room(m) == b.has_room(m),
        c.lines(n) == b.lines(n),
        forall|m: Seq<char>| m != n && b.has_room(m) ==> c.lines(m) == b.lines(m),
{
    assert forall|m: Seq<char>| c.has_room(m) == b.has_room(m) by {
        if b.has_room(m) {
            assert(c.has_room(m));
        }
        if c.has_room(m) {
            assert(b.has_room(m) || m == n);
        }
    }
}

/// Law: transcript order follows publish order. Of two lines published
/// one after the other to a room, the first stands at the strictly lower
/// index in the transcript.
pub proof fn lemma_publish_order(
    a: Registry,
    b: Registry,
    c: Registry,
    n: Seq<char>,
    l1: Seq<char>,
    l2: Seq<char>,
)
    requires
        a.has_room(n),
        publish_post(a, b, n, l1),
        publish_post(b, c, n, l2),
    ensures
        c.lines(n).len() == a.lines(n).len() + 2,
        c.lines(n)[a.lines(n).len() as int] == l1,
        c.lines(n)[a.lines(n).len() as int + 1] == l2,
{
    assert(b.has_room(n));
}


/// Law: a join never rewrites history — every transcript that existed
/// before the join, the joined room's included, is exactly what it was.
pub proof fn lemma_join_appends_nothing(pre: Registry, post: Registry, n: Seq<char>, m: Seq<char>)
    requires
        join_post(pre, post, n),
        pre.has_room(m),
    ensures
        post.lines(m) == pre.lines(m),
{
}

/// Law: transcripts are append-only — a publish leaves every existing
/// transcript a prefix of what it becomes.
pub proof fn lemma_publish_appends_only(
    pre: Registry,
    post: Registry,
    n: Seq<char>,
    line: Seq<char>,
    m: Seq<char>,
)
    requires
        publish_post(pre, post, n, line),
        pre.has_room(m),
    ensures
        pre.lines(m).is_prefix_of(post.lines(m)),
{
    if pre.has_room(n) && m == n {
        assert(post.lines(n) == pre.lines(n).push(line));
        assert(pre.lines(n).is_prefix_of(pre.lines(n).push(line)));
    }
}

} // verus!
