//! The thread-graph builder: consumes the flattened reply stream and
//! maintains the directed reply graph — nodes are post identifiers, an edge
//! parent→child labeled with the child's author means "child replies to
//! parent" — while tallying per-author reply counts through the user
//! directory. The graph is held in petgraph's `DiGraphMap`, behind trusted
//! wrappers whose contracts speak of the graph's node set and edge map.

use std::collections::HashMap;
use vstd::prelude::*;
use vstd::seq_lib::group_seq_properties;
use petgraph::graphmap::DiGraphMap;
use crate::directory::{Author, DirectoryModel, Rgb, UserDirectory, UserProfile, color_of_profile,
    author_from_profile};
use crate::model::{CrawlError, Post};

verus! {

broadcast use
    vstd::std_specs::hash::group_hash_axioms,
    group_seq_properties,
    Seq::<_>::lemma_filter_push,
    Seq::<_>::lemma_filter_len_push,
    Seq::<_>::lemma_filter_len;

/// What processing one post of the stream produced.
#[derive(Clone, Copy, PartialEq, Eq, Structural, Debug)]
pub enum BuildStep {
    /// The post was recorded: author tallied, association stored, edge added.
    Recorded,
    /// The post's author is not resolved yet: the consumer must look this
    /// identifier up once, hand the profile to `supply_author`, and then hand
    /// the post in again.
    NeedAuthor(u64),
}

#[verifier::external_type_specification]
#[verifier::external_body]
pub struct ExDirected(petgraph::Directed);

#[verifier::external_type_specification]
#[verifier::external_body]
#[verifier::reject_recursive_types(N)]
#[verifier::reject_recursive_types(E)]
#[verifier::reject_recursive_types(Ty)]
#[verifier::reject_recursive_types(S)]
pub struct ExGraphMap<N, E, Ty, S>(petgraph::graphmap::GraphMap<N, E, Ty, S>) where
    S: std::hash::BuildHasher;

/// The reply graph: post identifiers as nodes, author-labeled directed
/// edges.
pub type ReplyGraph = DiGraphMap<u64, u64>;

/// The set of nodes a reply graph holds.
pub uninterp spec fn graph_nodes(g: ReplyGraph) -> Set<u64>;

/// The directed edges a reply graph holds, each (from, to) pair mapped to its
/// weight.
pub uninterp spec fn graph_edges(g: ReplyGraph) -> Map<(u64, u64), u64>;

/// A graph with no nodes and no edges.
pub open spec fn graph_empty(g: ReplyGraph) -> bool {
    &&& graph_nodes(g) == Set::<u64>::empty()
    &&& graph_edges(g) == Map::<(u64, u64), u64>::empty()
}

/// Relies on petgraph's `GraphMap::new`: a graph with no nodes and no edges.
#[verifier::external_body]
fn graph_new() -> (g: ReplyGraph)
    ensures
        graph_empty(g),
{
    DiGraphMap::new()
}

/// Relies on petgraph's `GraphMap::add_node`: inserts the node and leaves the
/// edges alone.
#[verifier::external_body]
fn graph_add_node(g: &mut ReplyGraph, n: u64)
    ensures
        graph_nodes(*final(g)) == graph_nodes(*old(g)).insert(n),
        graph_edges(*final(g)) == graph_edges(*old(g)),
{
    g.add_node(n);
}

/// Relies on petgraph's `GraphMap::add_edge` on a directed graph: stores the
/// edge from `a` to `b` with the given weight, inserts either endpoint when
/// missing, and returns the weight the edge previously had, if any.
#[verifier::external_body]
fn graph_add_edge(g: &mut ReplyGraph, a: u64, b: u64, weight: u64) -> (r: Option<u64>)
    ensures
        graph_nodes(*final(g)) == graph_nodes(*old(g)).insert(a).insert(b),
        graph_edges(*final(g)) == graph_edges(*old(g)).insert((a, b), weight),
        r == if graph_edges(*old(g)).contains_key((a, b)) {
            Some(graph_edges(*old(g))[(a, b)])
        } else {
            None::<u64>
        },
{
    g.add_edge(a, b, weight)
}

/// Relies on petgraph's `GraphMap::contains_node`.
#[verifier::external_body]
fn graph_contains_node(g: &ReplyGraph, n: u64) -> (r: bool)
    ensures
        r == graph_nodes(*g).contains(n),
{
    g.contains_node(n)
}

/// Relies on petgraph's `GraphMap::edge_weight` on a directed graph: the
/// weight of the edge from `a` to `b`, if that edge exists.
#[verifier::external_body]
fn graph_edge_weight(g: &ReplyGraph, a: u64, b: u64) -> (r: Option<u64>)
    ensures
        r == if graph_edges(*g).contains_key((a, b)) {
            Some(graph_edges(*g)[(a, b)])
        } else {
            None::<u64>
        },
{
    g.edge_weight(a, b).copied()
}

/// Relies on petgraph's `GraphMap::node_count`: the number of nodes.
#[verifier::external_body]
fn graph_node_count(g: &ReplyGraph) -> (r: usize)
    ensures
        r == graph_nodes(*g).len(),
{
    g.node_count()
}

/// Relies on petgraph's `GraphMap::edge_count`: the number of edges.
#[verifier::external_body]
fn graph_edge_count(g: &ReplyGraph) -> (r: usize)
    ensures
        r == graph_edges(*g).dom().len(),
{
    g.edge_count()
}

/// How many entries of a recording log belong to one author.
pub open spec fn tally_of(log: Seq<u64>, a: u64) -> nat {
    log.filter(|x: u64| x == a).len()
}

/// A log that never mentions an author tallies zero for them.
pub proof fn lemma_tally_absent(log: Seq<u64>, a: u64)
    requires
        forall|i: int| 0 <= i < log.len() ==> log[i] != a,
    ensures
        tally_of(log, a) == 0,
    decreases log.len(),
{
    if log.len() > 0 {
        lemma_tally_absent(log.drop_last(), a);
        assert(log =~= log.drop_last().push(log.last()));
        assert(log[log.len() - 1] != a);
    } else {
        assert(log =~= Seq::<u64>::empty());
        assert(Seq::<u64>::empty().filter(|x: u64| x == a) =~= Seq::<u64>::empty());
    }
}

/// The mathematical model of a thread-graph builder.
pub struct BuilderModel {
    /// The crawl's root post.
    pub root: u64,
    /// Every recorded post mapped to its author (the root included).
    pub post_author: Map<u64, u64>,
    /// Every recorded reply mapped to its parent (the root excluded).
    pub replies: Map<u64, u64>,
    /// The graph's nodes.
    pub nodes: Set<u64>,
    /// The graph's edges, each (parent, child) pair mapped to the child's
    /// author.
    pub edges: Map<(u64, u64), u64>,
    /// The user directory's model.
    pub directory: DirectoryModel,
    /// The authors of the recorded posts, in recording order, root first.
    pub log: Seq<u64>,
}

/// Builds the reply graph incrementally from the flattened stream. Arrival
/// order is immaterial: a parent node is created lazily when a child arrives
/// first, relying only on the flat parent-link each post carries.
pub struct ThreadBuilder {
    root_id: u64,
    graph: ReplyGraph,
    posts: HashMap<u64, u64>,
    directory: UserDirectory,
    replies: Ghost<Map<u64, u64>>,
    log: Ghost<Seq<u64>>,
}

impl View for ThreadBuilder {
    type V = BuilderModel;

    closed spec fn view(&self) -> BuilderModel {
        BuilderModel {
            root: self.root_id,
            post_author: self.posts@,
            replies: self.replies@,
            nodes: graph_nodes(self.graph),
            edges: graph_edges(self.graph),
            directory: self.directory@,
            log: self.log@,
        }
    }
}

impl ThreadBuilder {
    /// The builder's invariant. The graph mirrors the recorded replies: the
    /// edge set is exactly { (parent, child) } over the recorded replies,
    /// each labeled with the child's author; every node is the root, a
    /// recorded reply, or a recorded reply's parent; every recorded author is
    /// resolved; and each resolved author's tally counts exactly the recorded
    /// posts by them.
    pub closed spec fn wf(&self) -> bool {
        let m = self@;
        &&& self.directory.wf()
        &&& m.nodes.finite()
        &&& m.edges.dom().finite()
        &&& m.post_author.contains_key(m.root)
        &&& !m.replies.contains_key(m.root)
        &&& m.nodes.contains(m.root)
        &&& forall|c: u64| #[trigger]
            m.replies.contains_key(c) ==> m.post_author.contains_key(c) && m.edges.contains_key(
                (m.replies[c], c),
            ) && m.nodes.contains(c) && m.nodes.contains(m.replies[c])
        &&& forall|p: u64, c: u64| #[trigger]
            m.edges.contains_key((p, c)) ==> m.replies.contains_key(c) && m.replies[c] == p
                && m.edges[(p, c)] == m.post_author[c]
        &&& forall|x: u64| #[trigger]
            m.nodes.contains(x) ==> x == m.root || m.replies.contains_key(x) || (exists|c: u64|
                #[trigger] m.replies.contains_key(c) && m.replies[c] == x)
        &&& forall|id: u64| #[trigger]
            m.post_author.contains_key(id) ==> m.directory.authors.contains_key(m.post_author[id])
        &&& forall|id: u64| #[trigger]
            m.post_author.contains_key(id) ==> id == m.root || m.replies.contains_key(id)
        &&& forall|i: int|
            0 <= i < m.log.len() ==> m.directory.authors.contains_key(#[trigger] m.log[i])
        &&& forall|a: u64| #[trigger]
            m.directory.counts.contains_key(a) ==> m.directory.counts[a] == tally_of(m.log, a)
        &&& m.log.len() == m.post_author.dom().len()
    }

    /// The identifier of the crawl's root post.
    pub fn root(&self) -> (r: u64)
        ensures
            r == self@.root,
    {
        self.root_id
    }

    /// How many posts the graph holds as nodes.
    pub fn node_count(&self) -> (n: usize)
        ensures
            n == self@.nodes.len(),
    {
        graph_node_count(&self.graph)
    }

    /// How many reply edges the graph holds.
    pub fn edge_count(&self) -> (n: usize)
        ensures
            n == self@.edges.dom().len(),
    {
        graph_edge_count(&self.graph)
    }

    /// Whether the post appears in the graph.
    pub fn contains_node(&self, id: u64) -> (r: bool)
        ensures
            r == self@.nodes.contains(id),
    {
        graph_contains_node(&self.graph, id)
    }

    /// The author labeling the edge parent→child, if that edge exists.
    pub fn edge_author(&self, parent: u64, child: u64) -> (r: Option<u64>)
        ensures
            r == if self@.edges.contains_key((parent, child)) {
                Some(self@.edges[(parent, child)])
            } else {
                None::<u64>
            },
    {
        graph_edge_weight(&self.graph, parent, child)
    }

    /// The recorded author of a post, if the post was recorded.
    pub fn author_of_post(&self, id: u64) -> (r: Option<u64>)
        ensures
            match r {
                Some(a) => self@.post_author.contains_key(id) && a == self@.post_author[id],
                None => !self@.post_author.contains_key(id),
            },
    {
        match self.posts.get(&id) {
            Some(a) => Some(*a),
            None => None,
        }
    }

    /// Whether the author is already resolved.
    pub fn has_author(&self, id: u64) -> (r: bool)
        ensures
            r == self@.directory.authors.contains_key(id),
    {
        self.directory.contains(id)
    }

    /// The resolved author, if the identifier has been seen.
    pub fn get_author(&self, id: u64) -> (r: Option<&Author>)
        ensures
            match r {
                Some(a) => self@.directory.authors.contains_key(id) && *a
                    == self@.directory.authors[id],
                None => !self@.directory.authors.contains_key(id),
            },
    {
        self.directory.get(id)
    }

    /// A resolved author's reply tally.
    pub fn reply_count_of(&self, id: u64) -> (r: Option<u64>)
        ensures
            match r {
                Some(c) => self@.directory.counts.contains_key(id) && c
                    == self@.directory.counts[id],
                None => !self@.directory.counts.contains_key(id),
            },
    {
        self.directory.reply_count(id)
    }

    /// How many unique authors have been resolved.
    pub fn author_count(&self) -> (n: usize)
        ensures
            n == self@.directory.authors.dom().len(),
    {
        self.directory.len()
    }

    /// Starts a crawl: seeds the graph with the root node, records the root
    /// post under its author, and enters the root author into the directory —
    /// the one lookup made for them, with the root post already tallied.
    pub fn new(root_id: u64, root_author: u64, profile: UserProfile, fallback: Rgb) -> (r: Result<
        ThreadBuilder,
        CrawlError,
    >)
        ensures
            r is Ok <==> color_of_profile(profile.profile_background_color@, fallback) is Some,
            r is Err ==> r == Err::<ThreadBuilder, CrawlError>(CrawlError::MalformedResponse),
            r matches Ok(b) ==> {
                &&& b.wf()
                &&& b@.root == root_id
                &&& b@.post_author == Map::<u64, u64>::empty().insert(root_id, root_author)
                &&& b@.replies == Map::<u64, u64>::empty()
                &&& b@.edges == Map::<(u64, u64), u64>::empty()
                &&& b@.nodes == Set::<u64>::empty().insert(root_id)
                &&& b@.directory.authors == Map::<u64, Author>::empty().insert(
                    root_author,
                    (Author {
                        handle: profile.screen_name,
                        name: profile.name,
                        color: color_of_profile(profile.profile_background_color@, fallback)->0,
                    }),
                )
                &&& b@.directory.counts == Map::<u64, u64>::empty().insert(root_author, 1)
                &&& b@.directory.lookups == seq![root_author]
                &&& b@.log == seq![root_author]
            },
    {
        let author = match author_from_profile(profile, fallback) {
            Ok(a) => a,
            Err(e) => {
                return Err(e);
            },
        };
        let mut graph = graph_new();
        graph_add_node(&mut graph, root_id);
        let mut posts: HashMap<u64, u64> = HashMap::new();
        posts.insert(root_id, root_author);
        let mut directory = UserDirectory::new();
        directory.insert_resolved(root_author, author, 1);
        let ghost initial_log: Seq<u64> = seq![root_author];
        let b = ThreadBuilder {
            root_id,
            graph,
            posts,
            directory,
            replies: Ghost(Map::empty()),
            log: Ghost(initial_log),
        };
        proof {
            assert forall|a: u64| #[trigger]
                b@.directory.counts.contains_key(a) implies b@.directory.counts[a] == tally_of(
                b@.log,
                a,
            ) by {
                assert(a == root_author);
                let p = |x: u64| x == a;
                assert(Seq::<u64>::empty().filter(p) =~= Seq::<u64>::empty());
                assert(b@.log =~= Seq::<u64>::empty().push(root_author));
                assert(b@.log.filter(p) == Seq::<u64>::empty().filter(p).push(root_author));
            }
            assert(b@.post_author.dom() =~= Set::<u64>::empty().insert(root_id));
            assert(b@.log.len() == b@.post_author.dom().len());
            assert(b.wf());
        }
        Ok(b)
    }

    /// Processes one post of the flattened stream, as the stream's consumer.
    /// When the author is already resolved, the post is recorded: the
    /// author's tally rises by one, the post→author association is stored,
    /// and the directed edge parent→child is inserted, creating either
    /// endpoint lazily. When the author is not resolved yet, nothing changes
    /// and one lookup is requested instead. A post with no parent link, with
    /// the root's own identifier, or with an identifier already recorded
    /// cannot belong to a well-formed reply stream and is malformed.
    pub fn process_post(&mut self, post: &Post) -> (r: Result<BuildStep, CrawlError>)
        requires
            old(self).wf(),
        ensures
            final(self).wf(),
            !old(self)@.directory.authors.contains_key(post.author_id) ==> r == Ok::<
                BuildStep,
                CrawlError,
            >(BuildStep::NeedAuthor(post.author_id)) && final(self)@ == old(self)@,
            old(self)@.directory.authors.contains_key(post.author_id) && !(post.parent_id is Some
                && post.id != old(self)@.root && !old(self)@.post_author.contains_key(post.id))
                ==> r == Err::<BuildStep, CrawlError>(CrawlError::MalformedResponse)
                && final(self)@ == old(self)@,
            old(self)@.directory.authors.contains_key(post.author_id) && post.parent_id is Some
                && post.id != old(self)@.root && !old(self)@.post_author.contains_key(post.id)
                ==> {
                let parent = post.parent_id->0;
                &&& r == Ok::<BuildStep, CrawlError>(BuildStep::Recorded)
                &&& final(self)@.root == old(self)@.root
                &&& final(self)@.post_author == old(self)@.post_author.insert(
                    post.id,
                    post.author_id,
                )
                &&& final(self)@.replies == old(self)@.replies.insert(post.id, parent)
                &&& final(self)@.edges == old(self)@.edges.insert((parent, post.id), post.author_id)
                &&& final(self)@.nodes == old(self)@.nodes.insert(parent).insert(post.id)
                &&& final(self)@.directory.authors == old(self)@.directory.authors
                &&& final(self)@.directory.lookups == old(self)@.directory.lookups
                &&& final(self)@.directory.counts == old(self)@.directory.counts.insert(
                    post.author_id,
                    (old(self)@.directory.counts[post.author_id] + 1) as u64,
                )
                &&& final(self)@.log == old(self)@.log.push(post.author_id)
            },
    {
        if !self.directory.contains(post.author_id) {
            return Ok(BuildStep::NeedAuthor(post.author_id));
        }
        let parent = match post.parent_id {
            Some(p) => p,
            None => {
                return Err(CrawlError::MalformedResponse);
            },
        };
        if post.id == self.root_id {
            return Err(CrawlError::MalformedResponse);
        }
        if self.posts.contains_key(&post.id) {
            return Err(CrawlError::MalformedResponse);
        }
        let ghost m0 = self@;
        self.posts.insert(post.id, post.author_id);
        let n = self.posts.len();
        proof {
            assert(self@.post_author.dom() =~= m0.post_author.dom().insert(post.id));
            assert(n == m0.post_author.dom().len() + 1);
            assert(m0.directory.counts.contains_key(post.author_id));
            assert(m0.directory.counts[post.author_id] == tally_of(m0.log, post.author_id));
            assert(m0.log.filter(|x: u64| x == post.author_id).len() <= m0.log.len());
            assert(m0.directory.counts[post.author_id] < n <= usize::MAX);
        }
        self.directory.bump_count(post.author_id);
        graph_add_edge(&mut self.graph, parent, post.id, post.author_id);
        self.replies = Ghost(self.replies@.insert(post.id, parent));
        self.log = Ghost(self.log@.push(post.author_id));
        proof {
            let m1 = self@;
            assert forall|c: u64| #[trigger]
                m1.replies.contains_key(c) implies m1.post_author.contains_key(c)
                && m1.edges.contains_key((m1.replies[c], c)) && m1.nodes.contains(c)
                && m1.nodes.contains(m1.replies[c]) by {
                if c != post.id {
                    assert(m0.replies.contains_key(c));
                    assert((m0.replies[c], c) != (parent, post.id));
                }
            }
            assert forall|p: u64, c: u64| #[trigger]
                m1.edges.contains_key((p, c)) implies m1.replies.contains_key(c) && m1.replies[c]
                == p && m1.edges[(p, c)] == m1.post_author[c] by {
                if (p, c) != (parent, post.id) {
                    assert(m0.edges.contains_key((p, c)));
                    assert(m0.replies.contains_key(c));
                    assert(m0.post_author.contains_key(c));
                    assert(c != post.id);
                }
            }
            assert forall|x: u64| #[trigger] m1.nodes.contains(x) implies x == m1.root
                || m1.replies.contains_key(x) || (exists|c: u64|
                #[trigger] m1.replies.contains_key(c) && m1.replies[c] == x) by {
                if x == parent || x == post.id {
                    assert(m1.replies.contains_key(post.id) && m1.replies[post.id] == parent);
                } else {
                    assert(m0.nodes.contains(x));
                    if !(x == m0.root || m0.replies.contains_key(x)) {
                        let c = choose|c: u64|
                            #[trigger] m0.replies.contains_key(c) && m0.replies[c] == x;
                        assert(m1.replies.contains_key(c) && m1.replies[c] == x);
                    }
                }
            }
            assert forall|a: u64| #[trigger]
                m1.directory.counts.contains_key(a) implies m1.directory.counts[a] == tally_of(
                m1.log,
                a,
            ) by {
                let pred = |x: u64| x == a;
                assert(m1.log == m0.log.push(post.author_id));
                assert(m1.log.filter(pred) == if pred(post.author_id) {
                    m0.log.filter(pred).push(post.author_id)
                } else {
                    m0.log.filter(pred)
                });
                assert(m0.directory.counts.contains_key(a));
                assert(m0.directory.counts[a] == tally_of(m0.log, a));
            }
            assert(m1.post_author.dom() =~= m0.post_author.dom().insert(post.id));
            assert(m1.log.len() == m1.post_author.dom().len());
            assert(self.wf());
        }
        Ok(BuildStep::Recorded)
    }

    /// Enters the result of the one network lookup made for a
    /// not-yet-resolved author. The tally starts at zero; the post that
    /// prompted the lookup is tallied when it is handed in again. A profile
    /// whose declared background color is neither the unset sentinel nor six
    /// hex digits is a malformed profile response and changes nothing.
    pub fn supply_author(&mut self, id: u64, profile: UserProfile, fallback: Rgb) -> (r: Result<
        (),
        CrawlError,
    >)
        requires
            old(self).wf(),
            !old(self)@.directory.authors.contains_key(id),
        ensures
            final(self).wf(),
            r is Ok <==> color_of_profile(profile.profile_background_color@, fallback) is Some,
            r is Err ==> r == Err::<(), CrawlError>(CrawlError::MalformedResponse) && final(self)@
                == old(self)@,
            color_of_profile(profile.profile_background_color@, fallback) matches Some(c) ==> {
                &&& final(self)@.directory.authors == old(self)@.directory.authors.insert(
                    id,
                    (Author { handle: profile.screen_name, name: profile.name, color: c }),
                )
                &&& final(self)@.directory.counts == old(self)@.directory.counts.insert(id, 0)
                &&& final(self)@.directory.lookups == old(self)@.directory.lookups.push(id)
                &&& final(self)@.root == old(self)@.root
                &&& final(self)@.post_author == old(self)@.post_author
                &&& final(self)@.replies == old(self)@.replies
                &&& final(self)@.nodes == old(self)@.nodes
                &&& final(self)@.edges == old(self)@.edges
                &&& final(self)@.log == old(self)@.log
            },
    {
        let author = match author_from_profile(profile, fallback) {
            Ok(a) => a,
            Err(e) => {
                return Err(e);
            },
        };
        let ghost m0 = self@;
        self.directory.insert_resolved(id, author, 0);
        proof {
            let m1 = self@;
            assert forall|i: int| 0 <= i < m0.log.len() implies m0.log[i] != id by {
                assert(m0.directory.authors.contains_key(m0.log[i]));
            }
            lemma_tally_absent(m0.log, id);
            assert forall|a: u64| #[trigger]
                m1.directory.counts.contains_key(a) implies m1.directory.counts[a] == tally_of(
                m1.log,
                a,
            ) by {
                if a != id {
                    assert(m0.directory.counts.contains_key(a));
                }
            }
            assert(self.wf());
        }
        Ok(())
    }
}

/// One lookup per author, and an exact tally: however many recorded posts one
/// author has, the author was looked up over the network at most once —
/// exactly once as soon as they are resolved — and their reply tally equals
/// the number of recorded posts by them.
pub proof fn lemma_single_flight_tally(b: ThreadBuilder, a: u64)
    requires
        b.wf(),
    ensures
        forall|i: int, j: int|
            0 <= i < b@.directory.lookups.len() && 0 <= j < b@.directory.lookups.len()
                && b@.directory.lookups[i] == a && b@.directory.lookups[j] == a ==> i == j,
        b@.directory.authors.contains_key(a) ==> exists|i: int|
            0 <= i < b@.directory.lookups.len() && b@.directory.lookups[i] == a,
        b@.directory.counts.contains_key(a) ==> b@.directory.counts[a] == tally_of(b@.log, a),
{
    crate::directory::lemma_single_flight(b.directory, a);
}

/// In the graph of an error-free, fully processed reply stream — one whose
/// every recorded parent is the root or itself a recorded reply — every node
/// other than the root has exactly one incoming edge, and the root has none.
pub proof fn lemma_in_degree(b: ThreadBuilder)
    requires
        b.wf(),
        forall|c: u64| #[trigger]
            b@.replies.contains_key(c) ==> b@.replies[c] == b@.root || b@.replies.contains_key(
                b@.replies[c],
            ),
    ensures
        forall|p: u64| !(#[trigger] b@.edges.contains_key((p, b@.root))),
        forall|x: u64|
            #[trigger] b@.nodes.contains(x) && x != b@.root ==> b@.edges.contains_key(
                (b@.replies[x], x),
            ),
        forall|x: u64, p: u64|
            b@.nodes.contains(x) && x != b@.root && #[trigger] b@.edges.contains_key((p, x)) ==> p
                == b@.replies[x],
{
    assert forall|x: u64| #[trigger]
        b@.nodes.contains(x) && x != b@.root implies b@.edges.contains_key(
        (b@.replies[x], x),
    ) by {
        if !b@.replies.contains_key(x) {
            let c = choose|c: u64| #[trigger] b@.replies.contains_key(c) && b@.replies[c] == x;
            assert(b@.replies[c] == b@.root || b@.replies.contains_key(b@.replies[c]));
        }
    }
}

} // verus!
