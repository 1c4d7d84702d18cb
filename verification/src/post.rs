//! The content store: posts, and the map from each registered username to its
//! ordered post sequence.
//!
//! The persistent collection cannot grow a sequence in place, so an append
//! deep-copies the whole old sequence into a fresh one, adds the new element,
//! and swaps the result in as one update. If any allocation along the way
//! fails, everything speculative is discarded and the old sequence is left
//! untouched: an append is atomic against storage exhaustion.

use vstd::prelude::*;

verus! {

use vstd::string::StrSliceExecFns;
use crate::address::Address;
use crate::response::CreatePostResponse;
use crate::stable_heap::{StableBox, StableHeap};
use crate::state::{same_state, State};

/// Longest topic a post may carry, in code units.
pub const MAX_TOPIC_LENGTH: usize = 50;

/// Longest message a post may carry, in code units.
pub const MAX_MESSAGE_LENGTH: usize = 700;

/// Reaction tallies of one post. Counters are 128 bits wide so that overflow
/// is out of reach for the life of the service.
#[derive(Clone, Copy, Debug, PartialEq, Eq)]
pub struct ReactionCount {
    pub like: u128,
    pub heart: u128,
    pub dislike: u128,
}

impl Default for ReactionCount {
    /// A post starts with no reactions at all.
    fn default() -> (r: Self)
        ensures
            r.like == 0,
            r.heart == 0,
            r.dislike == 0,
    {
        ReactionCount { like: 0, heart: 0, dislike: 0 }
    }
}

/// Abstract value of one post.
pub ghost struct PostView {
    pub topic: Seq<char>,
    pub message: Seq<char>,
    pub posted_at: u64,
    pub reaction_count: ReactionCount,
}

/// One post: a topic and a message held in the persistent heap, the logical
/// creation time, and the reaction tallies. Immutable except the tallies.
pub struct Post {
    topic: StableBox,
    message: StableBox,
    pub posted_at: u64,
    pub reaction_count: ReactionCount,
}

impl View for Post {
    type V = PostView;

    closed spec fn view(&self) -> PostView {
        PostView {
            topic: self.topic@,
            message: self.message@,
            posted_at: self.posted_at,
            reaction_count: self.reaction_count,
        }
    }
}

/// Heap units one post occupies: its topic and its message.
pub open spec fn post_units(p: PostView) -> int {
    p.topic.len() + p.message.len() as int
}

/// Heap units a whole post sequence occupies.
pub open spec fn posts_units(s: Seq<PostView>) -> int
    decreases s.len(),
{
    if s.len() == 0 {
        0
    } else {
        post_units(s[0]) + posts_units(s.drop_first())
    }
}

pub proof fn lemma_posts_units_nonneg(s: Seq<PostView>)
    ensures
        posts_units(s) >= 0,
    decreases s.len(),
{
    if s.len() > 0 {
        lemma_posts_units_nonneg(s.drop_first());
    }
}

pub proof fn lemma_posts_units_push(s: Seq<PostView>, p: PostView)
    ensures
        posts_units(s.push(p)) == posts_units(s) + post_units(p),
    decreases s.len(),
{
    if s.len() == 0 {
        assert(s.push(p)[0] == p);
        assert(s.push(p).drop_first() =~= Seq::<PostView>::empty());
        assert(posts_units(Seq::<PostView>::empty()) == 0);
        assert(posts_units(s) == 0);
        assert(posts_units(s.push(p)) == post_units(p));
    } else {
        assert(s.push(p)[0] == s[0]);
        assert(s.push(p).drop_first() =~= s.drop_first().push(p));
        lemma_posts_units_push(s.drop_first(), p);
        assert(posts_units(s.push(p)) == post_units(s[0]) + posts_units(s.drop_first().push(p)));
        assert(posts_units(s) == post_units(s[0]) + posts_units(s.drop_first()));
    }
}

pub proof fn lemma_posts_units_split(s: Seq<PostView>, k: int)
    requires
        0 <= k <= s.len(),
    ensures
        posts_units(s) == posts_units(s.take(k)) + posts_units(s.skip(k)),
    decreases k,
{
    if k == 0 {
        assert(s.take(0) =~= Seq::<PostView>::empty());
        assert(s.skip(0) =~= s);
    } else {
        assert(s.take(k).drop_first() =~= s.drop_first().take(k - 1));
        assert(s.skip(k) =~= s.drop_first().skip(k - 1));
        lemma_posts_units_split(s.drop_first(), k - 1);
    }
}

/// What a freshly created post looks like.
pub open spec fn new_post_view(data: CreatePostData, now: u64) -> PostView {
    PostView {
        topic: data.topic@,
        message: data.message@,
        posted_at: now,
        reaction_count: (ReactionCount { like: 0, heart: 0, dislike: 0 }),
    }
}

impl Post {
    /// Build a post, moving its topic and message into the persistent heap.
    /// Fails exactly when the two strings together no longer fit; on failure
    /// the heap is left untouched.
    pub fn new(heap: &mut StableHeap, data: CreatePostData, now: u64) -> (r: Option<Post>)
        ensures
            r is Some <==> old(heap)@.used + post_units(new_post_view(data, now)) <= old(
                heap,
            )@.capacity,
            (r matches Some(p) ==> {
                &&& p@ == new_post_view(data, now)
                &&& final(heap)@.used == old(heap)@.used + post_units(new_post_view(data, now))
            }),
            r is None ==> final(heap)@ == old(heap)@,
            final(heap)@.capacity == old(heap)@.capacity,
    {
        let CreatePostData { topic, message } = data;
        let checkpoint = heap.used();
        let topic = match StableBox::wrap(heap, topic) {
            None => {
                return None;
            },
            Some(t) => t,
        };
        let message = match StableBox::wrap(heap, message) {
            None => {
                let cur = heap.used();
                heap.release(cur - checkpoint);
                return None;
            },
            Some(m) => m,
        };
        Some(Post { topic, message, posted_at: now, reaction_count: Default::default() })
    }

    /// Deep-copy this post: both strings are allocated anew. Fails exactly
    /// when they no longer fit; on failure the heap is left untouched.
    pub fn duplicate(&self, heap: &mut StableHeap) -> (r: Option<Post>)
        ensures
            r is Some <==> old(heap)@.used + post_units(self@) <= old(heap)@.capacity,
            (r matches Some(p) ==> {
                &&& p@ == self@
                &&& final(heap)@.used == old(heap)@.used + post_units(self@)
            }),
            r is None ==> final(heap)@ == old(heap)@,
            final(heap)@.capacity == old(heap)@.capacity,
    {
        let checkpoint = heap.used();
        let topic = match StableBox::wrap(heap, self.topic.get().clone()) {
            None => {
                return None;
            },
            Some(t) => t,
        };
        let message = match StableBox::wrap(heap, self.message.get().clone()) {
            None => {
                let cur = heap.used();
                heap.release(cur - checkpoint);
                return None;
            },
            Some(m) => m,
        };
        Some(
            Post {
                topic,
                message,
                posted_at: self.posted_at,
                reaction_count: self.reaction_count,
            },
        )
    }

    /// The post's topic.
    pub fn topic(&self) -> (r: &String)
        ensures
            r@ == self@.topic,
    {
        self.topic.get()
    }

    /// The post's message.
    pub fn message(&self) -> (r: &String)
        ensures
            r@ == self@.message,
    {
        self.message.get()
    }
}

/// One content-store slot: a username and its post sequence.
struct PostEntry {
    username: StableBox,
    posts: Vec<Post>,
}

/// The content store: each registered username maps to its ordered,
/// append-only post sequence.
pub struct PostState {
    entries: Vec<PostEntry>,
}

impl PostState {
    /// The usernames that own a slot, in slot order.
    pub closed spec fn entry_keys(&self) -> Seq<Seq<char>> {
        self.entries@.map_values(|e: PostEntry| e.username@)
    }

    /// The post sequences, in slot order.
    pub closed spec fn entry_posts(&self) -> Seq<Seq<PostView>> {
        self.entries@.map_values(|e: PostEntry| e.posts@.map_values(|p: Post| p@))
    }

    /// No username owns two slots.
    pub open spec fn wf(&self) -> bool {
        forall|i: int, j: int|
            0 <= i < j < self.entry_keys().len() ==> self.entry_keys()[i] != self.entry_keys()[j]
    }

    /// Whether the store holds a slot for this username.
    pub open spec fn contains_user(&self, name: Seq<char>) -> bool {
        exists|i: int| 0 <= i < self.entry_keys().len() && self.entry_keys()[i] == name
    }

    /// The slot of this username.
    pub open spec fn user_index(&self, name: Seq<char>) -> int {
        choose|i: int| 0 <= i < self.entry_keys().len() && self.entry_keys()[i] == name
    }

    /// The post sequence of this username.
    pub open spec fn user_posts(&self, name: Seq<char>) -> Seq<PostView> {
        self.entry_posts()[self.user_index(name)]
    }

    /// An empty content store.
    pub fn new() -> (r: PostState)
        ensures
            forall|n: Seq<char>| !r.contains_user(n),
            r.wf(),
    {
        let r = PostState { entries: Vec::new() };
        proof {
            assert(r.entry_keys().len() == 0);
        }
        r
    }

    /// Find the slot of a username, if any.
    fn find_index(&self, username: &String) -> (r: Option<usize>)
        ensures
            r is Some <==> self.contains_user(username@),
            (r matches Some(i) ==> 0 <= i < self.entry_keys().len() && self.entry_keys()[i as int]
                == username@),
    {
        let n = self.entries.len();
        let mut i: usize = 0;
        while i < n
            invariant
                n == self.entries.len(),
                0 <= i <= n,
                forall|k: int| 0 <= k < i ==> self.entry_keys()[k] != username@,
            decreases n - i,
        {
            if *self.entries[i].username.get() == *username {
                proof {
                    assert(self.entry_keys()[i as int] == username@);
                }
                return Some(i);
            }
            i += 1;
        }
        None
    }

    /// Reserve an empty post sequence for a newly registered username.
    pub fn allocate(&mut self, key: StableBox)
        requires
            old(self).wf(),
            !old(self).contains_user(key@),
        ensures
            final(self).wf(),
            forall|n: Seq<char>|
                #[trigger] final(self).contains_user(n) <==> (old(self).contains_user(n) || n
                    == key@),
            final(self).user_posts(key@) == Seq::<PostView>::empty(),
            forall|n: Seq<char>|
                n != key@ && old(self).contains_user(n) ==> #[trigger] final(self).user_posts(n)
                    == old(self).user_posts(n),
    {
        let ghost pre = *self;
        let ghost k = key@;
        self.entries.push(PostEntry { username: key, posts: Vec::new() });
        proof {
            let n = pre.entries@.len();
            assert(self.entry_keys() =~= pre.entry_keys().push(k));
            assert(self.entry_posts() =~= pre.entry_posts().push(Seq::<PostView>::empty())) by {
                assert forall|i: int| 0 <= i <= n implies self.entry_posts()[i] == pre.entry_posts(
                ).push(Seq::<PostView>::empty())[i] by {
                    if i == n {
                        assert(self.entries@[i].posts@.map_values(|p: Post| p@) =~= Seq::<
                            PostView,
                        >::empty());
                    }
                }
            }
            assert forall|nm: Seq<char>| self.contains_user(nm) <==> (pre.contains_user(nm) || nm
                == k) by {
                if self.contains_user(nm) {
                    let i = choose|i: int|
                        0 <= i < self.entry_keys().len() && self.entry_keys()[i] == nm;
                    if i < n {
                        assert(pre.entry_keys()[i] == nm);
                    }
                }
                if pre.contains_user(nm) {
                    let i = choose|i: int|
                        0 <= i < pre.entry_keys().len() && pre.entry_keys()[i] == nm;
                    assert(self.entry_keys()[i] == nm);
                }
                if nm == k {
                    assert(self.entry_keys()[n as int] == nm);
                }
            }
            self.lemma_slot(k, n as int);
            assert forall|nm: Seq<char>| nm != k && pre.contains_user(nm) implies self.user_posts(
                nm,
            ) == pre.user_posts(nm) by {
                let i = choose|i: int|
                    0 <= i < pre.entry_keys().len() && pre.entry_keys()[i] == nm;
                pre.lemma_slot(nm, i);
                self.lemma_slot(nm, i);
            }
        }
    }

    /// If a username sits in slot `i` of a store with unique keys, then that
    /// slot is the username's slot.
    proof fn lemma_slot(&self, name: Seq<char>, i: int)
        requires
            self.wf(),
            0 <= i < self.entry_keys().len(),
            self.entry_keys()[i] == name,
        ensures
            self.contains_user(name),
            self.user_index(name) == i,
            self.user_posts(name) == self.entry_posts()[i],
    {
        assert(self.contains_user(name));
        let j = self.user_index(name);
        assert(0 <= j < self.entry_keys().len() && self.entry_keys()[j] == name);
        if i < j {
            assert(self.entry_keys()[i] != self.entry_keys()[j]);
        }
        if j < i {
            assert(self.entry_keys()[j] != self.entry_keys()[i]);
        }
    }

    /// Read a user's post sequence.
    pub fn get_posts(&self, username: &String) -> (r: Option<&Vec<Post>>)
        requires
            self.wf(),
        ensures
            r is Some <==> self.contains_user(username@),
            (r matches Some(v) ==> v@.map_values(|p: Post| p@) == self.user_posts(username@)),
    {
        match self.find_index(username) {
            None => None,
            Some(i) => {
                proof {
                    self.lemma_slot(username@, i as int);
                }
                Some(&self.entries[i].posts)
            },
        }
    }

    /// Append one post to a user's sequence, atomically: the old sequence is
    /// deep-copied into a fresh one, the post is added, and the result
    /// replaces the old sequence as a single update. On any allocation
    /// failure every speculative copy and the new post itself are discarded
    /// and the old sequence is left untouched.
    ///
    /// The post handed in is already charged to the heap, so a failing path
    /// returns its units too.
    pub fn append_post(&mut self, heap: &mut StableHeap, username: &String, post: Post) -> (r:
        Result<(), CreatePostResponse>)
        requires
            old(self).wf(),
            old(heap)@.used >= post_units(post@),
            old(heap)@.used <= old(heap)@.capacity,
        ensures
            final(self).wf(),
            final(heap)@.capacity == old(heap)@.capacity,
            !old(self).contains_user(username@) ==> {
                &&& r == Err::<(), CreatePostResponse>(CreatePostResponse::UserNotRegistered)
                &&& *final(self) == *old(self)
                &&& final(heap)@.used == old(heap)@.used - post_units(post@)
            },
            old(self).contains_user(username@) && old(heap)@.used + posts_units(
                old(self).user_posts(username@),
            ) > old(heap)@.capacity ==> {
                &&& r == Err::<(), CreatePostResponse>(CreatePostResponse::FailedToAllocateMemory)
                &&& *final(self) == *old(self)
                &&& final(heap)@.used == old(heap)@.used - post_units(post@)
            },
            old(self).contains_user(username@) && old(heap)@.used + posts_units(
                old(self).user_posts(username@),
            ) <= old(heap)@.capacity ==> {
                &&& r == Ok::<(), CreatePostResponse>(())
                &&& final(heap)@.used == old(heap)@.used
                &&& final(self).user_posts(username@) == old(self).user_posts(username@).push(
                    post@,
                )
                &&& forall|n: Seq<char>|
                    #[trigger] final(self).contains_user(n) == old(self).contains_user(n)
                &&& forall|n: Seq<char>|
                    n != username@ && old(self).contains_user(n)
                        ==> #[trigger] final(self).user_posts(n) == old(self).user_posts(n)
            },
    {
        let idx = match self.find_index(username) {
            None => {
                heap.release(post.topic.size());
                heap.release(post.message.size());
                return Err(CreatePostResponse::UserNotRegistered);
            },
            Some(i) => i,
        };
        proof {
            self.lemma_slot(username@, idx as int);
        }
        let ghost origs = self.entries@[idx as int].posts@.map_values(|p: Post| p@);
        let checkpoint = heap.used();
        let n_posts = self.entries[idx].posts.len();
        let mut copies: Vec<Post> = Vec::new();
        let mut i: usize = 0;
        while i < n_posts
            invariant
                *self == *old(self),
                self.wf(),
                0 <= idx < self.entries.len(),
                n_posts == self.entries@[idx as int].posts.len(),
                origs == self.entries@[idx as int].posts@.map_values(|p: Post| p@),
                0 <= i <= n_posts,
                self.entry_keys()[idx as int] == username@,
                copies@.map_values(|p: Post| p@) == origs.take(i as int),
                heap@.used == checkpoint + posts_units(origs.take(i as int)),
                heap@.used <= heap@.capacity,
                heap@.capacity == old(heap)@.capacity,
                checkpoint == old(heap)@.used,
                checkpoint >= post_units(post@),
            decreases n_posts - i,
        {
            proof {
                lemma_posts_units_push(origs.take(i as int), origs[i as int]);
                assert(origs.take(i + 1) =~= origs.take(i as int).push(origs[i as int]));
            }
            match self.entries[idx].posts[i].duplicate(heap) {
                None => {
                    proof {
                        self.lemma_slot(username@, idx as int);
                        lemma_posts_units_split(origs, i + 1);
                        lemma_posts_units_nonneg(origs.skip(i + 1));
                        lemma_posts_units_nonneg(origs.take(i as int));
                    }
                    let cur = heap.used();
                    heap.release(cur - checkpoint);
                    heap.release(post.topic.size());
                    heap.release(post.message.size());
                    return Err(CreatePostResponse::FailedToAllocateMemory);
                },
                Some(c) => {
                    proof {
                        assert(copies@.push(c).map_values(|p: Post| p@) =~= origs.take(i + 1));
                    }
                    copies.push(c);
                },
            }
            i += 1;
        }
        proof {
            assert(origs.take(n_posts as int) =~= origs);
            lemma_posts_units_nonneg(origs);
            lemma_posts_units_push(origs, post@);
            assert(copies@.push(post).map_values(|p: Post| p@) =~= origs.push(post@));
        }
        copies.push(post);
        let ghost pre = *self;
        self.entries[idx].posts = copies;
        proof {
            assert(self.entry_keys() =~= pre.entry_keys());
            assert(self.entry_posts() =~= pre.entry_posts().update(
                idx as int,
                origs.push(post@),
            ));
            self.lemma_slot(username@, idx as int);
            assert forall|nm: Seq<char>| self.contains_user(nm) == pre.contains_user(nm) by {
                assert(self.entry_keys() == pre.entry_keys());
            }
            assert forall|nm: Seq<char>| nm != username@ && pre.contains_user(nm) implies self.user_posts(
                nm,
            ) == pre.user_posts(nm) by {
                let i2 = choose|k: int|
                    0 <= k < pre.entry_keys().len() && pre.entry_keys()[k] == nm;
                pre.lemma_slot(nm, i2);
                self.lemma_slot(nm, i2);
            }
        }
        let cur = heap.used();
        heap.release(cur - checkpoint);
        Ok(())
    }
}

/// Input of a post-creation request.
pub struct CreatePostData {
    pub topic: String,
    pub message: String,
}

/// Validate a post-creation request: topic then message, first violation
/// wins.
pub fn create_post_check(data: &CreatePostData) -> (r: Result<(), CreatePostResponse>)
    ensures
        data.topic@.len() > MAX_TOPIC_LENGTH ==> r == Err::<(), CreatePostResponse>(
            CreatePostResponse::TopicTooLong,
        ),
        data.topic@.len() <= MAX_TOPIC_LENGTH && data.message@.len() > MAX_MESSAGE_LENGTH ==> r
            == Err::<(), CreatePostResponse>(CreatePostResponse::MessageTooLong),
        data.topic@.len() <= MAX_TOPIC_LENGTH && data.message@.len() <= MAX_MESSAGE_LENGTH ==> r
            == Ok::<(), CreatePostResponse>(()),
{
    if data.topic.as_str().unicode_len() > MAX_TOPIC_LENGTH {
        Err(CreatePostResponse::TopicTooLong)
    } else if data.message.as_str().unicode_len() > MAX_MESSAGE_LENGTH {
        Err(CreatePostResponse::MessageTooLong)
    } else {
        Ok(())
    }
}

/// Everything `create_post` promises, case by case over the prior state.
pub open spec fn create_post_outcome(
    pre: State,
    post: State,
    caller: Seq<u8>,
    data: CreatePostData,
    now: u64,
    r: CreatePostResponse,
) -> bool {
    if !pre.users.address_registered(caller) {
        r == CreatePostResponse::UserNotRegistered && same_state(pre, post)
    } else {
        let name = pre.users.resolved_username(caller);
        if data.topic@.len() > MAX_TOPIC_LENGTH {
            r == CreatePostResponse::TopicTooLong && same_state(pre, post)
        } else if data.message@.len() > MAX_MESSAGE_LENGTH {
            r == CreatePostResponse::MessageTooLong && same_state(pre, post)
        } else if pre.heap@.used + post_units(new_post_view(data, now)) + posts_units(
            pre.post_state.user_posts(name),
        ) > pre.heap@.capacity {
            r == CreatePostResponse::FailedToAllocateMemory && same_state(pre, post)
        } else {
            &&& r == CreatePostResponse::Success
            &&& post.post_state.user_posts(name) == pre.post_state.user_posts(name).push(
                new_post_view(data, now),
            )
            &&& forall|n: Seq<char>|
                #[trigger] post.post_state.contains_user(n) == pre.post_state.contains_user(n)
            &&& forall|n: Seq<char>|
                n != name && pre.post_state.contains_user(n) ==> #[trigger] post.post_state.user_posts(
                    n,
                ) == pre.post_state.user_posts(n)
            &&& post.heap@.used == pre.heap@.used + post_units(new_post_view(data, now))
            &&& post.heap@.capacity == pre.heap@.capacity
            &&& post.users == pre.users
            &&& post.init_data == pre.init_data
            &&& post.verification_charge == pre.verification_charge
            &&& post.user_count == pre.user_count
        }
    }
}

/// Create a post for the calling user: resolve the caller to a username,
/// validate the topic and the message, then append atomically. `now` is the
/// logical creation time the post will carry.
pub fn create_post(state: &mut State, caller: &Address, data: CreatePostData, now: u64) -> (r:
    CreatePostResponse)
    requires
        old(state).wf(),
    ensures
        final(state).wf(),
        create_post_outcome(*old(state), *final(state), caller@, data, now, r),
{
    let username = match state.users.resolve_username(caller) {
        None => {
            return CreatePostResponse::UserNotRegistered;
        },
        Some(u) => u,
    };
    match create_post_check(&data) {
        Err(e) => {
            return e;
        },
        Ok(()) => {},
    }
    let post = match Post::new(&mut state.heap, data, now) {
        None => {
            proof {
                lemma_posts_units_nonneg(
                    old(state).post_state.user_posts(old(state).users.resolved_username(caller@)),
                );
            }
            return CreatePostResponse::FailedToAllocateMemory;
        },
        Some(p) => p,
    };
    match state.post_state.append_post(&mut state.heap, &username, post) {
        Err(e) => e,
        Ok(()) => CreatePostResponse::Success,
    }
}

} // verus!
