//! The resolution of a token into a price, as a state machine.
//!
//! The caller performs each [`Action`] (prints, reads a line, calls the price
//! service) and hands the outcome back as the next event. A token that the
//! service does not know leads back to asking for another token: the retry is
//! a state of the machine, not a nested call.
use vstd::prelude::*;
use vstd::string::StringExecFns;
use crate::price::{lookup_spec, price_line, price_line_text, usd_price, Lookup};
use crate::text::{accepts_override, is_override_yes, normalize, normalized, same_text, trim_of};

verus! {

/// Where a resolution stands.
#[derive(Clone, Copy, PartialEq, Eq, Structural, Debug)]
pub enum Phase {
    /// Waiting for the answer to "the token is not in the list, call anyway?".
    Confirming,
    /// Waiting for the decoded answer of the price service.
    Querying,
    /// The service did not know the token: waiting for another one.
    AwaitingToken,
    /// Finished: the price was shown, or the user declined, or the answer
    /// held no US-dollar price.
    Done,
}

/// What the caller is to do next. `T` is `String` at run time and `Seq<char>`
/// in contracts.
#[derive(Debug)]
pub enum Action<T> {
    /// Tell the user that the token is not in the list and ask whether to
    /// call the service anyway; then hand the answer to `on_answer`.
    Confirm(T),
    /// Call the price service for the token; then hand the decoded answer to
    /// `on_response`.
    Query(T),
    /// Print the line; the resolution is over.
    Show(T),
    /// Tell the user that the service does not know the token and read
    /// another one; then hand it to `on_new_token`.
    Retry(T),
    /// Tell the user that the operation is cancelled; the resolution is over.
    Abort,
    /// The service listed the token without a US-dollar price: a fatal error.
    Fail(T),
    /// The event does not belong to the current phase: nothing to do.
    Idle,
}

impl View for Action<String> {
    type V = Action<Seq<char>>;

    open spec fn view(&self) -> Action<Seq<char>> {
        match self {
            Action::Confirm(t) => Action::Confirm(t@),
            Action::Query(t) => Action::Query(t@),
            Action::Show(t) => Action::Show(t@),
            Action::Retry(t) => Action::Retry(t@),
            Action::Abort => Action::Abort,
            Action::Fail(t) => Action::Fail(t@),
            Action::Idle => Action::Idle,
        }
    }
}

/// The state of a resolution: the token at hand, whether the user has let it
/// bypass the allow-list, and the phase.
pub struct Resolver {
    pub token: String,
    pub forced: bool,
    pub phase: Phase,
}

/// The state of a resolution, as contracts see it.
pub struct ResolverView {
    pub token: Seq<char>,
    pub forced: bool,
    pub phase: Phase,
}

impl View for Resolver {
    type V = ResolverView;

    open spec fn view(&self) -> ResolverView {
        ResolverView { token: self.token@, forced: self.forced, phase: self.phase }
    }
}

/// The decoded answer of the price service, as contracts see it: for each
/// token, its prices by currency code, in thousandths.
pub type TableView = Seq<(Seq<char>, Seq<(Seq<char>, u64)>)>;

/// A token enters the allow-list check: a listed one goes to the service at
/// once, an unlisted one needs the user's consent.
pub open spec fn enter(token: Seq<char>, known: Seq<Seq<char>>) -> (ResolverView, Action<Seq<char>>) {
    if known.contains(token) {
        (ResolverView { token, forced: false, phase: Phase::Querying }, Action::Query(token))
    } else {
        (ResolverView { token, forced: false, phase: Phase::Confirming }, Action::Confirm(token))
    }
}

/// The user answers the allow-list prompt.
pub open spec fn after_answer(s: ResolverView, answer: Seq<char>) -> (ResolverView, Action<Seq<char>>) {
    if s.phase != Phase::Confirming {
        (s, Action::Idle)
    } else if is_override_yes(trim_of(answer)) {
        (ResolverView { forced: true, phase: Phase::Querying, ..s }, Action::Query(s.token))
    } else {
        (ResolverView { phase: Phase::Done, ..s }, Action::Abort)
    }
}

/// The price service answers.
pub open spec fn after_response(s: ResolverView, table: TableView) -> (ResolverView, Action<Seq<char>>) {
    if s.phase != Phase::Querying {
        (s, Action::Idle)
    } else {
        match lookup_spec(table, s.token) {
            Lookup::Found(p) => (
                ResolverView { phase: Phase::Done, ..s },
                Action::Show(price_line_text(s.token, p as nat)),
            ),
            Lookup::UnknownToken => (ResolverView { phase: Phase::AwaitingToken, ..s }, Action::Retry(s.token)),
            Lookup::NoUsdPrice => (ResolverView { phase: Phase::Done, ..s }, Action::Fail(s.token)),
        }
    }
}

/// The user types another token after the service did not know the last one.
pub open spec fn after_new_token(s: ResolverView, line: Seq<char>, known: Seq<Seq<char>>) -> (ResolverView, Action<Seq<char>>) {
    if s.phase != Phase::AwaitingToken {
        (s, Action::Idle)
    } else {
        enter(normalized(line), known)
    }
}

/// The tokens that need no confirmation before the price service is called.
pub open spec fn known_tokens_spec() -> Seq<Seq<char>> {
    seq!["ethereum"@, "bitcoin"@, "solana"@, "dogecoin"@, "avalanche-2"@]
}

/// The tokens that need no confirmation before the price service is called.
pub fn known_tokens() -> (r: Vec<String>)
    ensures
        r.deep_view() == known_tokens_spec(),
{
    let r = vec![
        String::from_str("ethereum"),
        String::from_str("bitcoin"),
        String::from_str("solana"),
        String::from_str("dogecoin"),
        String::from_str("avalanche-2"),
    ];
    assert(r.deep_view() =~= known_tokens_spec());
    r
}

/// Whether `token` is in the list of known tokens.
pub fn is_listed(token: &str, known: &Vec<String>) -> (r: bool)
    ensures
        r == known.deep_view().contains(token@),
{
    let mut i: usize = 0;
    while i < known.len()
        invariant
            i <= known@.len(),
            forall|j: int| 0 <= j < i ==> known@[j]@ != token@,
        decreases known@.len() - i,
    {
        if same_text(known[i].as_str(), token) {
            assert(known.deep_view()[i as int] == token@);
            return true;
        }
        i = i + 1;
    }
    assert(!known.deep_view().contains(token@)) by {
        if known.deep_view().contains(token@) {
            let j = choose|j: int| 0 <= j < known.deep_view().len() && known.deep_view()[j] == token@;
            assert(known@[j]@ == token@);
        }
    }
    false
}

/// A token in the list goes straight to the price service, with no prompt:
/// at the start of a resolution, and when it is typed after a token that the
/// service did not know.
pub proof fn law_listed_token_is_queried(
    token: Seq<char>,
    known: Seq<Seq<char>>,
    s: ResolverView,
    line: Seq<char>,
)
    ensures
        known.contains(token) ==> enter(token, known).1 == Action::Query(token),
        known.contains(token) ==> enter(token, known).0.phase == Phase::Querying,
        s.phase == Phase::AwaitingToken && known.contains(normalized(line))
            ==> after_new_token(s, line, known).1 == Action::Query(normalized(line)),
{
}

/// A token not in the list is put to the user once, before the price service
/// is called for it. The prompt comes only when the token enters; the answer
/// either sends that token to the service, with the bypass recorded, or ends
/// the resolution; the answer of the service never prompts again; and once
/// the resolution is over no event calls the service or prompts.
pub proof fn law_unlisted_token_prompted_once(
    token: Seq<char>,
    known: Seq<Seq<char>>,
    s: ResolverView,
    answer: Seq<char>,
    table: TableView,
    line: Seq<char>,
)
    ensures
        !known.contains(token) ==> enter(token, known).1 == Action::Confirm(token)
            && enter(token, known).0.phase == Phase::Confirming,
        s.phase == Phase::Confirming ==> {
            let (n, a) = after_answer(s, answer);
            ||| n.phase == Phase::Querying && n.forced && n.token == s.token && a == Action::Query(s.token)
            ||| n.phase == Phase::Done && a == Action::<Seq<char>>::Abort
        },
        after_answer(s, answer).1 !is Confirm,
        after_response(s, table).1 !is Confirm,
        after_new_token(s, line, known).1 is Confirm ==> s.phase == Phase::AwaitingToken
            && !known.contains(normalized(line)),
        s.phase == Phase::Done ==> after_answer(s, answer) == (s, Action::<Seq<char>>::Idle)
            && after_response(s, table) == (s, Action::<Seq<char>>::Idle)
            && after_new_token(s, line, known) == (s, Action::<Seq<char>>::Idle),
{
}

impl Resolver {
    /// Starts the resolution of `token` against the list of known tokens.
    pub fn start(token: &str, known: &Vec<String>) -> (r: (Resolver, Action<String>))
        ensures
            (r.0@, r.1@) == enter(token@, known.deep_view()),
    {
        let t = String::from_str(token);
        if is_listed(token, known) {
            (Resolver { token: t, forced: false, phase: Phase::Querying }, Action::Query(String::from_str(token)))
        } else {
            (Resolver { token: t, forced: false, phase: Phase::Confirming }, Action::Confirm(String::from_str(token)))
        }
    }

    /// Takes the user's answer to the allow-list prompt.
    pub fn on_answer(&mut self, answer: &str) -> (r: Action<String>)
        ensures
            (final(self)@, r@) == after_answer(old(self)@, answer@),
    {
        if self.phase != Phase::Confirming {
            return Action::Idle;
        }
        if accepts_override(answer) {
            self.forced = true;
            self.phase = Phase::Querying;
            Action::Query(self.token.clone())
        } else {
            self.phase = Phase::Done;
            Action::Abort
        }
    }

    /// Takes the decoded answer of the price service: for each token, its
    /// prices by currency code, in thousandths.
    pub fn on_response(&mut self, table: &Vec<(String, Vec<(String, u64)>)>) -> (r: Action<String>)
        ensures
            (final(self)@, r@) == after_response(old(self)@, table.deep_view()),
    {
        if self.phase != Phase::Querying {
            return Action::Idle;
        }
        match usd_price(table, self.token.as_str()) {
            Lookup::Found(p) => {
                self.phase = Phase::Done;
                Action::Show(price_line(self.token.as_str(), p))
            },
            Lookup::UnknownToken => {
                self.phase = Phase::AwaitingToken;
                Action::Retry(self.token.clone())
            },
            Lookup::NoUsdPrice => {
                self.phase = Phase::Done;
                Action::Fail(self.token.clone())
            },
        }
    }

    /// Takes the line that the user typed in place of a token that the
    /// service did not know; it is trimmed and lower-cased, and checked
    /// against the list afresh.
    pub fn on_new_token(&mut self, line: &str, known: &Vec<String>) -> (r: Action<String>)
        ensures
            (final(self)@, r@) == after_new_token(old(self)@, line@, known.deep_view()),
    {
        if self.phase != Phase::AwaitingToken {
            return Action::Idle;
        }
        let token = normalize(line);
        let (next, action) = Resolver::start(token.as_str(), known);
        *self = next;
        action
    }
}

} // verus!
