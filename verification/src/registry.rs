use vstd::prelude::*;
use tokio_util::sync::CancellationToken;

verus! {

#[verifier::external_type_specification]
#[verifier::external_body]
pub struct ExCancellationToken(tokio_util::sync::CancellationToken);

/// `CancellationToken::new`: a token in the non-cancelled state.
#[verifier::external_body]
fn new_token() -> CancellationToken {
    CancellationToken::new()
}

/// `CancellationToken::clone`: a handle on the same cancellation state. The
/// clone holds the same shared pointer as the original, so the two values
/// are the same.
#[verifier::external_body]
fn clone_token(token: &CancellationToken) -> (r: CancellationToken)
    ensures
        r == *token,
{
    token.clone()
}

/// `CancellationToken::cancel`: requests cancellation of every handle on the
/// token's state.
#[verifier::external_body]
fn cancel_token(token: &CancellationToken) {
    token.cancel()
}

/// The chat streams in progress, at most one per meeting, each with the token
/// that cancels it.
pub struct ChatRegistry {
    entries: Vec<(String, CancellationToken)>,
}

impl ChatRegistry {
    /// The meeting ids of the entries, in order.
    pub closed spec fn ids(&self) -> Seq<Seq<char>> {
        self.entries@.map_values(|e: (String, CancellationToken)| e.0@)
    }

    /// No meeting has two entries.
    pub closed spec fn wf(&self) -> bool {
        self.ids().no_duplicates()
    }

    /// Whether a stream is registered for the meeting.
    pub closed spec fn has(&self, meeting_id: Seq<char>) -> bool {
        self.ids().contains(meeting_id)
    }

    /// The position of the meeting's entry (meaningful when it has one).
    closed spec fn position(&self, meeting_id: Seq<char>) -> int {
        choose|k: int| 0 <= k < self.ids().len() && self.ids()[k] == meeting_id
    }

    /// In a well-formed registry, a meeting's entry is the only one with its id.
    proof fn lemma_position(&self, k: int)
        requires
            self.wf(),
            0 <= k < self.entries@.len(),
        ensures
            self.has(self.ids()[k]),
            self.position(self.ids()[k]) == k,
    {
        let id = self.ids()[k];
        assert(self.ids()[k] == id);
        let j = self.position(id);
        assert(0 <= j < self.ids().len() && self.ids()[j] == id);
    }
}

impl View for ChatRegistry {
    type V = Map<Seq<char>, CancellationToken>;

    /// The meetings with a stream in progress, each with its stream's token.
    closed spec fn view(&self) -> Map<Seq<char>, CancellationToken> {
        Map::new(|id: Seq<char>| self.has(id), |id: Seq<char>| self.entries@[self.position(id)].1)
    }
}

/// What a registration that was granted does: the meeting was not
/// registered, now is, and every other meeting keeps its token.
pub open spec fn registration_granted(
    before: Map<Seq<char>, CancellationToken>,
    after: Map<Seq<char>, CancellationToken>,
    meeting_id: Seq<char>,
) -> bool {
    &&& !before.dom().contains(meeting_id)
    &&& after.dom().contains(meeting_id)
    &&& after.remove(meeting_id) == before
}

/// What a refused registration does: the meeting already had a stream, and
/// the registry, tokens included, is left as it was.
pub open spec fn registration_refused(
    before: Map<Seq<char>, CancellationToken>,
    after: Map<Seq<char>, CancellationToken>,
    meeting_id: Seq<char>,
) -> bool {
    &&& before.dom().contains(meeting_id)
    &&& after == before
}

/// What a cleanup does: the meeting's entry, if any, is gone, and every
/// other meeting keeps its token.
pub open spec fn cleaned_up(
    before: Map<Seq<char>, CancellationToken>,
    after: Map<Seq<char>, CancellationToken>,
    meeting_id: Seq<char>,
) -> bool {
    after == before.remove(meeting_id)
}

impl ChatRegistry {
    /// A registry with no stream in progress.
    pub fn new() -> (r: Self)
        ensures
            r.wf(),
            r@ == Map::<Seq<char>, CancellationToken>::empty(),
    {
        let r = ChatRegistry { entries: Vec::new() };
        assert(r@ =~= Map::<Seq<char>, CancellationToken>::empty());
        r
    }

    /// The position of the meeting's entry, if it has one.
    fn find(&self, meeting_id: &str) -> (r: Option<usize>)
        ensures
            r is None <==> !self.has(meeting_id@),
            r matches Some(k) ==> k < self.entries@.len() && self.ids()[k as int] == meeting_id@,
    {
        let n = self.entries.len();
        for i in 0..n
            invariant
                n == self.entries@.len(),
                forall|k: int| 0 <= k < i ==> #[trigger] self.ids()[k] != meeting_id@,
        {
            if same_id(&self.entries[i].0, meeting_id) {
                assert(self.ids()[i as int] == meeting_id@);
                return Some(i);
            }
        }
        None
    }

    /// Whether a stream is registered for the meeting.
    pub fn is_active(&self, meeting_id: &str) -> (r: bool)
        ensures
            r == self@.dom().contains(meeting_id@),
    {
        self.find(meeting_id).is_some()
    }
}

fn same_id(a: &String, b: &str) -> (r: bool)
    ensures
        r == (a@ == b@),
{
    crate::text::same_text(a.as_str(), b)
}

/// One stream per meeting: once a registration is granted, registering the
/// meeting again is refused (its `None` case) until it is cleaned up, and a
/// cleanup makes room for it again.
pub proof fn law_one_stream_per_meeting(
    before: Map<Seq<char>, CancellationToken>,
    registered: Map<Seq<char>, CancellationToken>,
    cleaned: Map<Seq<char>, CancellationToken>,
    meeting_id: Seq<char>,
)
    requires
        registration_granted(before, registered, meeting_id),
        cleaned_up(registered, cleaned, meeting_id),
    ensures
        registered.dom().contains(meeting_id),
        !cleaned.dom().contains(meeting_id),
{
}

/// A refused second registration leaves the first stream's token in place.
pub proof fn law_refusal_keeps_the_first_token(
    before: Map<Seq<char>, CancellationToken>,
    after: Map<Seq<char>, CancellationToken>,
    meeting_id: Seq<char>,
)
    requires
        registration_refused(before, after, meeting_id),
    ensures
        after.dom().contains(meeting_id),
        after[meeting_id] == before[meeting_id],
{
}

/// Registering a meeting leaves every other meeting's token unchanged.
pub proof fn law_registration_keeps_other_tokens(
    before: Map<Seq<char>, CancellationToken>,
    after: Map<Seq<char>, CancellationToken>,
    meeting_id: Seq<char>,
    other: Seq<char>,
)
    requires
        registration_granted(before, after, meeting_id),
        other != meeting_id,
    ensures
        after.dom().contains(other) == before.dom().contains(other),
        before.dom().contains(other) ==> after[other] == before[other],
{
    assert(after.remove(meeting_id).dom().contains(other) == after.dom().contains(other));
    if before.dom().contains(other) {
        assert(after.remove(meeting_id)[other] == after[other]);
    }
}

/// Registering a meeting and then cleaning it up gives back the registry
/// it started from, tokens included.
pub proof fn law_register_then_cleanup_restores(
    before: Map<Seq<char>, CancellationToken>,
    registered: Map<Seq<char>, CancellationToken>,
    cleaned: Map<Seq<char>, CancellationToken>,
    meeting_id: Seq<char>,
)
    requires
        registration_granted(before, registered, meeting_id),
        cleaned_up(registered, cleaned, meeting_id),
    ensures
        cleaned == before,
{
}

/// Cleaning up one meeting does not touch the stream of another, and a
/// second cleanup of the same meeting changes nothing.
pub proof fn law_cleanup_touches_only_its_meeting(
    before: Map<Seq<char>, CancellationToken>,
    after: Map<Seq<char>, CancellationToken>,
    again: Map<Seq<char>, CancellationToken>,
    meeting_id: Seq<char>,
    other: Seq<char>,
)
    requires
        cleaned_up(before, after, meeting_id),
        cleaned_up(after, again, meeting_id),
        other != meeting_id,
    ensures
        after.dom().contains(other) == before.dom().contains(other),
        before.dom().contains(other) ==> after[other] == before[other],
        again == after,
{
    assert(again =~= after);
}

/// Registers a cancellation token for a meeting's chat stream and returns
/// it. Returns `None`, and changes nothing, if a stream is already
/// registered for the meeting; otherwise the meeting is added with the
/// returned token (the registry keeps a handle on the same token) and every
/// other meeting keeps its own.
pub fn try_register_chat_token(registry: &mut ChatRegistry, meeting_id: &str) -> (r: Option<
    CancellationToken,
>)
    requires
        old(registry).wf(),
    ensures
        final(registry).wf(),
        r is None <==> old(registry)@.dom().contains(meeting_id@),
        r is None ==> registration_refused(old(registry)@, final(registry)@, meeting_id@),
        r is Some ==> registration_granted(old(registry)@, final(registry)@, meeting_id@),
        r matches Some(t) ==> final(registry)@[meeting_id@] == t,
{
    if registry.find(meeting_id).is_some() {
        return None;
    }
    let ghost prev = *registry;
    let ghost before = registry.ids();
    let token = new_token();
    let kept = clone_token(&token);
    registry.entries.push((String::from_str(meeting_id), kept));
    assert(registry.ids() =~= before.push(meeting_id@));
    let ghost n = before.len() as int;
    assert forall|id: Seq<char>| #[trigger] registry.has(id) == (prev.has(id) || id
        == meeting_id@) by {
        if registry.has(id) {
            let k = choose|k: int| 0 <= k < registry.ids().len() && registry.ids()[k] == id;
            if k < before.len() {
                assert(before[k] == id);
            }
        }
        if prev.has(id) {
            let k = choose|k: int| 0 <= k < before.len() && before[k] == id;
            assert(registry.ids()[k] == id);
        }
        if id == meeting_id@ {
            assert(registry.ids()[n] == id);
        }
    }
    assert forall|id: Seq<char>| prev.has(id) implies #[trigger] registry@[id] == prev@[id] by {
        let j = prev.position(id);
        assert(0 <= j < before.len() && before[j] == id);
        prev.lemma_position(j);
        assert(registry.ids()[j] == id);
        registry.lemma_position(j);
    }
    assert(registry.has(meeting_id@));
    proof {
        assert(registry.ids()[n] == meeting_id@);
        registry.lemma_position(n);
        assert(registry@[meeting_id@] == token);
    }
    assert(registry@.remove(meeting_id@) =~= prev@);
    Some(token)
}

/// Forgets the stream of a meeting, if one is registered; every other
/// meeting keeps its token.
pub fn cleanup_chat_token(registry: &mut ChatRegistry, meeting_id: &str)
    requires
        old(registry).wf(),
    ensures
        final(registry).wf(),
        cleaned_up(old(registry)@, final(registry)@, meeting_id@),
{
    match registry.find(meeting_id) {
        None => {
            assert(registry@ =~= old(registry)@.remove(meeting_id@));
        },
        Some(k) => {
            let ghost prev = *registry;
            let ghost before = registry.ids();
            registry.entries.remove(k);
            assert(registry.ids() =~= before.remove(k as int));
            assert forall|id: Seq<char>| #[trigger] registry.has(id) == (prev.has(id) && id
                != meeting_id@) by {
                if registry.has(id) {
                    let j = choose|j: int| 0 <= j < registry.ids().len() && registry.ids()[j] == id;
                    if j < k {
                        assert(before[j] == id);
                        assert(j != k);
                    } else {
                        assert(before[j + 1] == id);
                        assert(j + 1 != k);
                    }
                }
                if prev.has(id) && id != meeting_id@ {
                    let j = choose|j: int| 0 <= j < before.len() && before[j] == id;
                    if j < k {
                        assert(registry.ids()[j] == id);
                    } else {
                        assert(j != k);
                        assert(registry.ids()[j - 1] == id);
                    }
                }
            }
            assert forall|id: Seq<char>| registry.has(id) implies #[trigger] registry@[id]
                == prev@[id] by {
                let j = registry.position(id);
                assert(0 <= j < registry.ids().len() && registry.ids()[j] == id);
                registry.lemma_position(j);
                let oj = if j < k { j } else { j + 1 };
                assert(before[oj] == id);
                prev.lemma_position(oj);
            }
            assert(registry@ =~= old(registry)@.remove(meeting_id@));
        },
    }
}

/// Requests cancellation of a meeting's chat stream, through the token held
/// for it. Returns whether a stream was registered for the meeting; the
/// registry itself is unchanged.
pub fn cancel_chat_token(registry: &ChatRegistry, meeting_id: &str) -> (r: bool)
    ensures
        r == registry@.dom().contains(meeting_id@),
{
    match registry.find(meeting_id) {
        Some(k) => {
            cancel_token(&registry.entries[k].1);
            true
        },
        None => false,
    }
}

} // verus!
