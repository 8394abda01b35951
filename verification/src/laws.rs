//! What holds of every invocation, whatever the ledger and the processor
//! reply.

use crate::auth::{key_failure, UNAUTHORIZED};
use crate::command::{CommandKind, CommandResultView};
use crate::engine::{
    act, advanced, begun, key, registration, selected_repo_of, EffectView, NextView, PendingView,
    ReplyView, SessionView, StageView,
};
use crate::grammar::{
    action_of, ask_has_dash, ask_has_question, ask_of, is_expert, named_in, AskView,
};
use crate::ledger::{user_key, LedgerCallView, LedgerOp, LedgerReplyView, Platform};
use crate::processor::{accepted, failure_message, settled};
use crate::reply::{unknown_expert, ASK_FORMAT_HELP, NO_REPOSITORY_SELECTED};
use crate::response::{carrying, PayloadView};
use crate::service::{opened, proceeded, ServedView, ServiceRequest};
use crate::slack::{concluded, ExchangeView};
use crate::text::lowercase;
use vstd::prelude::*;

verus! {

/// The session and the effect it asks for once the first `n` replies are in,
/// the reply numbered `i` arriving at the time `clock[i]`.
pub open spec fn after(
    start: (SessionView, EffectView),
    replies: Seq<ReplyView>,
    clock: Seq<u64>,
    n: nat,
) -> (SessionView, EffectView)
    decreases n,
{
    if n == 0 {
        start
    } else {
        advanced(after(start, replies, clock, (n - 1) as nat).0, replies[n - 1], clock[n - 1])
    }
}

/// Whether a reply shows that the ledger carried a call out.
pub open spec fn confirms(reply: ReplyView) -> bool {
    reply matches ReplyView::Ledger(r) && r.succeeded()
}

/// Whether a reply is an answer that the processor gave with success and
/// that names a selected repository.
pub open spec fn names_repository(reply: ReplyView) -> bool {
    reply matches ReplyView::Processor(p) && (settled(p) matches Ok(response) && selected_repo_of(
        response.metadata,
    ) is Some)
}

/// What every stage of a session upholds.
spec fn upholds(
    user_id: Seq<char>,
    replies: Seq<ReplyView>,
    n: nat,
    now: (SessionView, EffectView),
) -> bool {
    &&& now.0.user_id == user_id
    &&& n == 0 ==> now.0.stage is Registering && now.1 == EffectView::Ledger(registration(user_id))
    &&& n >= 1 ==> !(now.0.stage is Registering)
    &&& n >= 1 && !confirms(replies[0]) ==> now.0.stage.is_terminal()
    &&& now.0.stage.is_terminal() ==> now.1 is Finish
    &&& now.0.stage is Acting ==> now.1 is Process
    &&& now.1 matches EffectView::Ledger(call) ==> (call.is_write() ==> n >= 1 && call.owner()
        == key(user_id))
}

proof fn lemma_upholds(
    kind: CommandKind,
    text: Seq<char>,
    user_id: Seq<char>,
    initiator: Seq<u8>,
    dashboard_url: Seq<char>,
    replies: Seq<ReplyView>,
    clock: Seq<u64>,
    n: nat,
)
    ensures
        upholds(
            user_id,
            replies,
            n,
            after(begun(kind, text, user_id, initiator, dashboard_url), replies, clock, n),
        ),
    decreases n,
{
    if n > 0 {
        lemma_upholds(
            kind,
            text,
            user_id,
            initiator,
            dashboard_url,
            replies,
            clock,
            (n - 1) as nat,
        );
    }
}

/// No record of a user is stored or updated before the ledger has confirmed
/// that the user is registered: the first call of every invocation registers
/// its user, and a write, wherever it stands among the effects, is for that
/// user and comes after the ledger has confirmed the registration.
pub proof fn law_registration_precedes_writes(
    kind: CommandKind,
    text: Seq<char>,
    user_id: Seq<char>,
    initiator: Seq<u8>,
    dashboard_url: Seq<char>,
    replies: Seq<ReplyView>,
    clock: Seq<u64>,
    n: nat,
)
    requires
        n <= replies.len(),
        replies.len() == clock.len(),
    ensures
        ({
            let start = begun(kind, text, user_id, initiator, dashboard_url);
            &&& start.1 == EffectView::Ledger(registration(user_id))
            &&& !registration(user_id).is_write()
            &&& after(start, replies, clock, n).1 matches EffectView::Ledger(call) ==> (
            call.is_write() ==> n >= 1 && confirms(replies[0]) && call.owner() == key(user_id))
        }),
{
    lemma_upholds(kind, text, user_id, initiator, dashboard_url, replies, clock, n);
    if n >= 1 {
        lemma_upholds(kind, text, user_id, initiator, dashboard_url, replies, clock, (n - 1) as nat);
    }
}

/// The processor is asked nothing before the ledger has confirmed that the
/// user is registered.
pub proof fn law_registration_precedes_processing(
    kind: CommandKind,
    text: Seq<char>,
    user_id: Seq<char>,
    initiator: Seq<u8>,
    dashboard_url: Seq<char>,
    replies: Seq<ReplyView>,
    clock: Seq<u64>,
    n: nat,
)
    requires
        n <= replies.len(),
        replies.len() == clock.len(),
    ensures
        after(begun(kind, text, user_id, initiator, dashboard_url), replies, clock, n).1
            is Process ==> n >= 1 && confirms(replies[0]),
{
    lemma_upholds(kind, text, user_id, initiator, dashboard_url, replies, clock, n);
}

/// Whether an effect creates a record of what a user did: a chat message, a
/// task or an issue.
pub open spec fn creates_record(effect: EffectView) -> bool {
    effect matches EffectView::Ledger(call) && (call is StoreChatMessage || call is StoreAsanaTask
        || call is StoreGithubIssue)
}

/// Whether what is pending only sends the processor's answer on.
spec fn forwards(pending: PendingView) -> bool {
    pending is Forward
}

/// Where a command of each kind may stand after each reply.
spec fn on_course(kind: CommandKind, n: nat, now: (SessionView, EffectView)) -> bool {
    let stage = now.0.stage;
    let over = stage.is_terminal();
    &&& over <==> now.1 is Finish
    &&& stage is Acting ==> now.1 is Process
    &&& n == 0 ==> (stage matches StageView::Registering { kind: k, text } && k == kind)
        && !creates_record(now.1)
    &&& n == 1 ==> (creates_record(now.1) ==> kind == CommandKind::Project) && match kind {
        CommandKind::Ask => over || (stage matches StageView::Acting(p) && p is Answer),
        CommandKind::Project => over || (stage matches StageView::Acting(p) && forwards(p)) || (
        stage matches StageView::Persisting { op, wrapped, next } && (
        next matches NextView::Process { request, pending } && (forwards(pending)
            || pending is Enrich))),
        CommandKind::GitHub => over || (stage matches StageView::Acting(p) && (forwards(p)
            || p is Validate || p is CheckRepo)) || (stage matches StageView::Persisting {
            op,
            wrapped,
            next,
        } && !creates_record(now.1) && (next matches NextView::Process { request, pending }
            && forwards(pending))),
        CommandKind::Dashboard => over || stage is FetchingToken,
        CommandKind::Help => over,
    }
    &&& n == 2 ==> (creates_record(now.1) ==> kind != CommandKind::Project) && match kind {
        CommandKind::Ask => over || (stage matches StageView::Persisting { op, wrapped, next }
            && next is Reply),
        CommandKind::Project => over || (stage matches StageView::Acting(p) && (forwards(p)
            || p is Enrich)),
        CommandKind::GitHub => over || (stage matches StageView::Acting(p) && forwards(p)) || (
        stage matches StageView::Persisting { op, wrapped, next } && (
        next matches NextView::Process { request, pending } && forwards(pending))),
        _ => over,
    }
    &&& n == 3 ==> !creates_record(now.1) && (over || (stage matches StageView::Acting(p)
        && forwards(p)) || (stage matches StageView::Persisting { op, wrapped, next }
        && next is Reply))
    &&& n >= 4 ==> over
}

proof fn lemma_on_course(
    kind: CommandKind,
    text: Seq<char>,
    user_id: Seq<char>,
    initiator: Seq<u8>,
    dashboard_url: Seq<char>,
    replies: Seq<ReplyView>,
    clock: Seq<u64>,
    n: nat,
)
    ensures
        on_course(
            kind,
            n,
            after(begun(kind, text, user_id, initiator, dashboard_url), replies, clock, n),
        ),
    decreases n,
{
    if n > 0 {
        lemma_on_course(
            kind,
            text,
            user_id,
            initiator,
            dashboard_url,
            replies,
            clock,
            (n - 1) as nat,
        );
    }
}

/// Every invocation ends, and ends with a result: the session asks for its
/// result exactly when it reaches a terminal stage, and it has reached one
/// once four replies are in, whatever they are.
pub proof fn law_invocation_ends_with_a_result(
    kind: CommandKind,
    text: Seq<char>,
    user_id: Seq<char>,
    initiator: Seq<u8>,
    dashboard_url: Seq<char>,
    replies: Seq<ReplyView>,
    clock: Seq<u64>,
    n: nat,
)
    requires
        n <= replies.len(),
        replies.len() == clock.len(),
    ensures
        ({
            let now = after(
                begun(kind, text, user_id, initiator, dashboard_url),
                replies,
                clock,
                n,
            );
            &&& now.0.stage.is_terminal() <==> now.1 is Finish
            &&& n >= 4 ==> now.0.stage.is_terminal()
        }),
{
    lemma_on_course(kind, text, user_id, initiator, dashboard_url, replies, clock, n);
}

/// What a user did is recorded once: among the effects of an invocation at
/// most one stores a chat message, a task or an issue.
pub proof fn law_records_are_created_once(
    kind: CommandKind,
    text: Seq<char>,
    user_id: Seq<char>,
    initiator: Seq<u8>,
    dashboard_url: Seq<char>,
    replies: Seq<ReplyView>,
    clock: Seq<u64>,
    i: nat,
    j: nat,
)
    requires
        i <= replies.len(),
        j <= replies.len(),
        replies.len() == clock.len(),
    ensures
        ({
            let start = begun(kind, text, user_id, initiator, dashboard_url);
            creates_record(after(start, replies, clock, i).1) && creates_record(
                after(start, replies, clock, j).1,
            ) ==> i == j
        }),
{
    lemma_on_course(kind, text, user_id, initiator, dashboard_url, replies, clock, i);
    lemma_on_course(kind, text, user_id, initiator, dashboard_url, replies, clock, j);
}

/// An invocation whose command ends at once, whatever the time, asks for
/// nothing after its registration.
proof fn lemma_ends_at_once(
    kind: CommandKind,
    text: Seq<char>,
    user_id: Seq<char>,
    initiator: Seq<u8>,
    dashboard_url: Seq<char>,
    replies: Seq<ReplyView>,
    clock: Seq<u64>,
    n: nat,
)
    requires
        forall|now: u64| (#[trigger] act(kind, text, user_id, initiator, now)).0.is_terminal(),
    ensures
        ({
            let now = after(begun(kind, text, user_id, initiator, dashboard_url), replies, clock, n);
            &&& now.0.user_id == user_id
            &&& now.0.initiator == initiator
            &&& n == 0 ==> now.0.stage == (StageView::Registering { kind, text })
            &&& n >= 1 ==> now.0.stage.is_terminal()
            &&& !(now.1 is Process)
        }),
    decreases n,
{
    if n > 0 {
        lemma_ends_at_once(
            kind,
            text,
            user_id,
            initiator,
            dashboard_url,
            replies,
            clock,
            (n - 1) as nat,
        );
        if n == 1 {
            assert(act(kind, text, user_id, initiator, clock[0]).0.is_terminal());
        }
    }
}

/// The guidance with which an `ask` message that asks nothing is answered:
/// the guidance on the format where the message has no dash or names an
/// expert, else the reply that the name is unknown. Both list the experts.
pub open spec fn ask_guidance(text: Seq<char>) -> Seq<char> {
    if !ask_has_dash(text) || is_expert(lowercase(named_in(text))) {
        ASK_FORMAT_HELP@
    } else {
        unknown_expert(named_in(text))
    }
}

/// An `ask` message without a dash, or with nothing but blanks after its
/// first dash, never reaches the processor; once the user is registered it
/// is answered with guidance that lists the experts.
pub proof fn law_unsplittable_ask_gets_guidance(
    text: Seq<char>,
    user_id: Seq<char>,
    initiator: Seq<u8>,
    dashboard_url: Seq<char>,
    replies: Seq<ReplyView>,
    clock: Seq<u64>,
    n: nat,
)
    requires
        n <= replies.len(),
        replies.len() == clock.len(),
        !ask_has_question(text),
    ensures
        ({
            let start = begun(CommandKind::Ask, text, user_id, initiator, dashboard_url);
            &&& !(after(start, replies, clock, n).1 is Process)
            &&& replies.len() >= 1 && confirms(replies[0]) ==> after(start, replies, clock, 1).1
                == EffectView::Finish(CommandResultView::Success(ask_guidance(text)))
        }),
{
    assert(ask_of(text) is Malformed || ask_of(text) is UnknownExpert);
    lemma_ends_at_once(CommandKind::Ask, text, user_id, initiator, dashboard_url, replies, clock, n);
    lemma_ends_at_once(CommandKind::Ask, text, user_id, initiator, dashboard_url, replies, clock, 0);
}

/// An `ask` message whose name before the dash is no expert's never reaches
/// the processor, whatever it asks; once the user is registered the reply
/// gives the name as written, says that it is unknown and lists the experts.
pub proof fn law_unknown_expert_gets_guidance(
    text: Seq<char>,
    user_id: Seq<char>,
    initiator: Seq<u8>,
    dashboard_url: Seq<char>,
    replies: Seq<ReplyView>,
    clock: Seq<u64>,
    n: nat,
)
    requires
        n <= replies.len(),
        replies.len() == clock.len(),
        ask_has_dash(text),
        !is_expert(lowercase(named_in(text))),
    ensures
        ({
            let start = begun(CommandKind::Ask, text, user_id, initiator, dashboard_url);
            &&& !(after(start, replies, clock, n).1 is Process)
            &&& replies.len() >= 1 && confirms(replies[0]) ==> after(start, replies, clock, 1).1
                == EffectView::Finish(CommandResultView::Success(unknown_expert(named_in(text))))
        }),
{
    assert(ask_of(text) == (AskView::UnknownExpert { named: named_in(text) }));
    lemma_ends_at_once(CommandKind::Ask, text, user_id, initiator, dashboard_url, replies, clock, n);
    lemma_ends_at_once(CommandKind::Ask, text, user_id, initiator, dashboard_url, replies, clock, 0);
}

/// What every stage of a `github create` upholds where the processor names
/// no repository.
spec fn upholds_without_repository(n: nat, now: (SessionView, EffectView)) -> bool {
    &&& n == 0 ==> now.0.stage is Registering
    &&& n == 1 ==> now.0.stage.is_terminal() || (now.0.stage matches StageView::Acting(pending)
        && pending is CheckRepo)
    &&& n >= 2 ==> now.0.stage.is_terminal()
    &&& now.1 matches EffectView::Ledger(call) ==> !(call is StoreGithubIssue)
}

proof fn lemma_without_repository(
    text: Seq<char>,
    user_id: Seq<char>,
    initiator: Seq<u8>,
    dashboard_url: Seq<char>,
    replies: Seq<ReplyView>,
    clock: Seq<u64>,
    n: nat,
)
    requires
        action_of(text).name == "create"@,
        !names_repository(replies[1]),
    ensures
        upholds_without_repository(
            n,
            after(
                begun(CommandKind::GitHub, text, user_id, initiator, dashboard_url),
                replies,
                clock,
                n,
            ),
        ),
        after(
            begun(CommandKind::GitHub, text, user_id, initiator, dashboard_url),
            replies,
            clock,
            n,
        ).0.stage matches StageView::Registering { kind, text: t } ==> kind == CommandKind::GitHub
            && t == text,
    decreases n,
{
    reveal_strlit("create");
    reveal_strlit("connect");
    reveal_strlit("list");
    reveal_strlit("select");
    if n > 0 {
        lemma_without_repository(
            text,
            user_id,
            initiator,
            dashboard_url,
            replies,
            clock,
            (n - 1) as nat,
        );
        assert("create"@ != "connect"@) by {
            assert("create"@[1] != "connect"@[1]);
        }
        assert("create"@ != "list"@) by {
            assert("create"@.len() != "list"@.len());
        }
        assert("create"@ != "select"@) by {
            assert("create"@[0] != "select"@[0]);
        }
    }
}

/// Where the processor names no selected repository, a `github create`
/// stores no issue, whatever else is replied; and where the processor
/// answered with success, the invocation fails saying that no repository is
/// selected.
pub proof fn law_no_issue_without_repository(
    text: Seq<char>,
    user_id: Seq<char>,
    initiator: Seq<u8>,
    dashboard_url: Seq<char>,
    replies: Seq<ReplyView>,
    clock: Seq<u64>,
    n: nat,
)
    requires
        n <= replies.len(),
        replies.len() == clock.len(),
        action_of(text).name == "create"@,
        replies.len() >= 2 ==> !names_repository(replies[1]),
    ensures
        ({
            let start = begun(CommandKind::GitHub, text, user_id, initiator, dashboard_url);
            &&& after(start, replies, clock, n).1 matches EffectView::Ledger(call) ==> !(call
                is StoreGithubIssue)
            &&& n == 2 && after(start, replies, clock, 1).0.stage is Acting && (
            replies[1] matches ReplyView::Processor(p) && settled(p) is Ok) ==> after(
                start,
                replies,
                clock,
                2,
            ).1 == EffectView::Finish(CommandResultView::BadRequest(NO_REPOSITORY_SELECTED@))
        }),
{
    if replies.len() >= 2 {
        lemma_without_repository(text, user_id, initiator, dashboard_url, replies, clock, n);
        if n == 2 {
            lemma_without_repository(text, user_id, initiator, dashboard_url, replies, clock, 1);
        }
    } else {
        // The processor has not yet been heard on the repository, and what
        // the session asks for does not depend on replies still to come.
        lemma_replies_to_come(
            begun(CommandKind::GitHub, text, user_id, initiator, dashboard_url),
            replies,
            clock,
            n,
        );
        lemma_without_repository(
            text,
            user_id,
            initiator,
            dashboard_url,
            with_silence(replies),
            clock,
            n,
        );
    }
}

/// Whether a reply shows that the processor accepted a request.
pub open spec fn accepts(reply: ReplyView) -> bool {
    reply matches ReplyView::Processor(p) && accepted(p) is Ok
}

/// What every stage of a `github select` upholds where the processor does
/// not accept the repository.
spec fn upholds_without_selection(n: nat, now: (SessionView, EffectView)) -> bool {
    &&& n == 0 ==> now.0.stage is Registering
    &&& n == 1 ==> now.0.stage.is_terminal() || (now.0.stage matches StageView::Acting(pending)
        && pending is Validate)
    &&& n >= 2 ==> now.0.stage.is_terminal()
    &&& now.1 matches EffectView::Ledger(call) ==> !(call is UpdateGithubSelectedRepo)
}

proof fn lemma_without_selection(
    text: Seq<char>,
    user_id: Seq<char>,
    initiator: Seq<u8>,
    dashboard_url: Seq<char>,
    replies: Seq<ReplyView>,
    clock: Seq<u64>,
    n: nat,
)
    requires
        action_of(text).name == "select"@,
        !accepts(replies[1]),
    ensures
        upholds_without_selection(
            n,
            after(
                begun(CommandKind::GitHub, text, user_id, initiator, dashboard_url),
                replies,
                clock,
                n,
            ),
        ),
        after(
            begun(CommandKind::GitHub, text, user_id, initiator, dashboard_url),
            replies,
            clock,
            n,
        ).0.stage matches StageView::Registering { kind, text: t } ==> kind == CommandKind::GitHub
            && t == text,
    decreases n,
{
    reveal_strlit("select");
    reveal_strlit("connect");
    reveal_strlit("list");
    if n > 0 {
        lemma_without_selection(
            text,
            user_id,
            initiator,
            dashboard_url,
            replies,
            clock,
            (n - 1) as nat,
        );
        assert("select"@ != "connect"@) by {
            assert("select"@[0] != "connect"@[0]);
        }
        assert("select"@ != "list"@) by {
            assert("select"@.len() != "list"@.len());
        }
    }
}

/// Where the processor does not accept the repository, a `github select`
/// updates nothing on the ledger, whatever else is replied; and the
/// invocation fails in the words of the processor's failure.
pub proof fn law_refused_selection_updates_nothing(
    text: Seq<char>,
    user_id: Seq<char>,
    initiator: Seq<u8>,
    dashboard_url: Seq<char>,
    replies: Seq<ReplyView>,
    clock: Seq<u64>,
    n: nat,
)
    requires
        n <= replies.len(),
        replies.len() == clock.len(),
        action_of(text).name == "select"@,
        replies.len() >= 2 ==> !accepts(replies[1]),
    ensures
        ({
            let start = begun(CommandKind::GitHub, text, user_id, initiator, dashboard_url);
            &&& after(start, replies, clock, n).1 matches EffectView::Ledger(call) ==> !(call
                is UpdateGithubSelectedRepo)
            &&& n == 2 && after(start, replies, clock, 1).0.stage is Acting ==> (
            replies[1] matches ReplyView::Processor(p) ==> (accepted(p) matches Err(failure)
                && after(start, replies, clock, 2).1 == EffectView::Finish(
                CommandResultView::InternalError(failure_message(failure)),
            )))
        }),
{
    if replies.len() >= 2 {
        lemma_without_selection(text, user_id, initiator, dashboard_url, replies, clock, n);
        if n == 2 {
            lemma_without_selection(text, user_id, initiator, dashboard_url, replies, clock, 1);
        }
    } else {
        lemma_replies_to_come(
            begun(CommandKind::GitHub, text, user_id, initiator, dashboard_url),
            replies,
            clock,
            n,
        );
        lemma_without_selection(
            text,
            user_id,
            initiator,
            dashboard_url,
            with_silence(replies),
            clock,
            n,
        );
    }
}

/// `replies` followed by two replies in which the ledger says nothing but
/// that it failed.
spec fn with_silence(replies: Seq<ReplyView>) -> Seq<ReplyView> {
    replies.push(ReplyView::Ledger(LedgerReplyView::Failed(Seq::empty()))).push(
        ReplyView::Ledger(LedgerReplyView::Failed(Seq::empty())),
    )
}

/// What a session asks for after `n` replies is the same whatever replies
/// come later; and where fewer than two replies are in, the second of those
/// to come may be taken to be silence, which neither names a repository nor
/// accepts one.
proof fn lemma_replies_to_come(
    start: (SessionView, EffectView),
    replies: Seq<ReplyView>,
    clock: Seq<u64>,
    n: nat,
)
    requires
        n <= replies.len(),
    ensures
        after(start, replies, clock, n) == after(start, with_silence(replies), clock, n),
        replies.len() < 2 ==> !names_repository(with_silence(replies)[1]) && !accepts(
            with_silence(replies)[1],
        ),
{
    lemma_same_start(start, replies, with_silence(replies), clock, n);
}

/// What a session asks after `n` replies depends on those replies alone.
proof fn lemma_same_start(
    start: (SessionView, EffectView),
    a: Seq<ReplyView>,
    b: Seq<ReplyView>,
    clock: Seq<u64>,
    n: nat,
)
    requires
        n <= a.len(),
        n <= b.len(),
        forall|i: int| 0 <= i < n ==> a[i] == b[i],
    ensures
        after(start, a, clock, n) == after(start, b, clock, n),
    decreases n,
{
    if n > 0 {
        lemma_same_start(start, a, b, clock, (n - 1) as nat);
    }
}

/// The exchange of a service route and what it asks for once the first `n`
/// replies of the ledger are in.
pub open spec fn served_after(
    start: (ExchangeView, ServedView),
    replies: Seq<LedgerReplyView>,
    base_url: Seq<char>,
    n: nat,
) -> (ExchangeView, ServedView)
    decreases n,
{
    if n == 0 {
        start
    } else {
        proceeded(served_after(start, replies, base_url, (n - 1) as nat).0, replies[n - 1], base_url)
    }
}

/// The Slack user whose registration a call asks for.
pub open spec fn registers(call: ServedView, slack_id: Seq<char>) -> bool {
    call == ServedView::Call(LedgerCallView::RegisterUser { platform: Platform::Slack, id: slack_id })
}

proof fn lemma_done_stays_done(
    start: (ExchangeView, ServedView),
    replies: Seq<LedgerReplyView>,
    base_url: Seq<char>,
    n: nat,
)
    requires
        start.0 is Done,
        start.1 is Reply,
    ensures
        served_after(start, replies, base_url, n).0 is Done,
        served_after(start, replies, base_url, n).1 is Reply,
    decreases n,
{
    if n > 0 {
        lemma_done_stays_done(start, replies, base_url, (n - 1) as nat);
    }
}

/// A service request that shows no key, or a key other than the secret, is
/// answered as unauthorized, and nothing is asked of the ledger for it,
/// whatever its caller feeds back. (The service routes never turn to the
/// processor.)
pub proof fn law_unauthorized_request_makes_no_calls(
    header: Option<Seq<char>>,
    secret: Seq<char>,
    request: ServiceRequest,
    replies: Seq<LedgerReplyView>,
    base_url: Seq<char>,
    n: nat,
)
    requires
        header != Some(secret),
    ensures
        ({
            let start = opened(header, secret, request);
            &&& start.1 matches ServedView::Reply { status, body } && status == UNAUTHORIZED
                && !body.success && body.data is None && body.error is Some
            &&& served_after(start, replies, base_url, n).1 is Reply
        }),
{
    assert(key_failure(header, secret) is Some);
    lemma_done_stays_done(opened(header, secret, request), replies, base_url, n);
}

/// What every stage of a service route upholds.
spec fn route_upholds(
    start: (ExchangeView, ServedView),
    replies: Seq<LedgerReplyView>,
    n: nat,
    now: (ExchangeView, ServedView),
) -> bool {
    &&& n == 0 ==> now == start
    &&& n == 1 ==> (now.0 is Done && now.1 is Reply) || (start.0 matches ExchangeView::Registering {
        then,
    } && replies[0].succeeded() && now.0 is Calling && now.1 == ServedView::Call(then))
    &&& n >= 2 ==> now.0 is Done && now.1 is Reply
}

proof fn lemma_route_upholds(
    header: Option<Seq<char>>,
    secret: Seq<char>,
    request: ServiceRequest,
    replies: Seq<LedgerReplyView>,
    base_url: Seq<char>,
    n: nat,
)
    ensures
        route_upholds(
            opened(header, secret, request),
            replies,
            n,
            served_after(opened(header, secret, request), replies, base_url, n),
        ),
    decreases n,
{
    if n > 0 {
        lemma_route_upholds(header, secret, request, replies, base_url, (n - 1) as nat);
    }
}

/// On the service routes too, no record of a user is stored or updated
/// before the ledger has confirmed that the user is registered: a write is
/// never the first call of a route; where a route writes, its first call has
/// registered the user whom the write is for, and the ledger has confirmed
/// it.
pub proof fn law_service_registration_precedes_writes(
    header: Option<Seq<char>>,
    secret: Seq<char>,
    request: ServiceRequest,
    replies: Seq<LedgerReplyView>,
    base_url: Seq<char>,
    n: nat,
)
    requires
        n <= replies.len(),
    ensures
        ({
            let start = opened(header, secret, request);
            served_after(start, replies, base_url, n).1 matches ServedView::Call(call) ==> (
            call.is_write() ==> n == 1 && replies[0].succeeded() && exists|slack_id: Seq<char>|
                #[trigger] registers(start.1, slack_id) && call.owner() == user_key(
                    Platform::Slack,
                    slack_id,
                ))
        }),
{
    lemma_route_upholds(header, secret, request, replies, base_url, n);
    let start = opened(header, secret, request);
    let now = served_after(start, replies, base_url, n);
    if now.1 matches ServedView::Call(call) && call.is_write() {
        match request {
            ServiceRequest::StoreMessage { slack_id, message } => {
                assert(registers(start.1, slack_id@));
            },
            ServiceRequest::StoreGithubConnection { slack_id, github } => {
                assert(registers(start.1, slack_id@));
            },
            ServiceRequest::StoreGithubIssue { slack_id, issue } => {
                assert(registers(start.1, slack_id@));
            },
            ServiceRequest::UpdateGithubRepo { slack_id, repo_name } => {
                assert(registers(start.1, slack_id@));
            },
            ServiceRequest::StoreAsanaConnection { slack_id, asana } => {
                assert(registers(start.1, slack_id@));
            },
            ServiceRequest::StoreAsanaTask { slack_id, task } => {
                assert(registers(start.1, slack_id@));
            },
            _ => {},
        }
    }
}

/// Registering a user again is no error and changes nothing in what the
/// gateway does: whatever the ledger sends with its confirmation, the
/// registration is reported as a success without data, and the command of a
/// session goes on in the same way.
pub proof fn law_registration_is_repeatable(
    first: LedgerReplyView,
    second: LedgerReplyView,
    session: SessionView,
    now: u64,
)
    requires
        first.succeeded(),
        second.succeeded(),
        session.stage is Registering,
    ensures
        concluded(LedgerOp::RegisterUser, first) == Ok::<_, Seq<char>>(
            carrying(PayloadView::Nothing),
        ),
        concluded(LedgerOp::RegisterUser, second) == concluded(LedgerOp::RegisterUser, first),
        advanced(session, ReplyView::Ledger(second), now) == advanced(
            session,
            ReplyView::Ledger(first),
            now,
        ),
{
}

} // verus!
