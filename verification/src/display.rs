//! What holds of what is read on the command line and said to the user, said of what goes into
//! a call and what comes out of it.

use crate::cli::{list_profiles, Action, Args, Found, Refusal};
use crate::error::Error;
use crate::profile::ProfileSummary;
use vstd::prelude::*;

use crate::cli::{
    args_of, args_view, byte_length, cell, column_header, column_width, command_line, line_of,
    profile_line, profile_lines, value_of, ActionView, ArgumentView, GrammarView, RefusalView,
    SubcommandView,
};
use crate::text::{decimal_text, padded, texts};

verus! {

/// Whether a value is the first that was given under a name.
pub open spec fn is_given(
    values: Seq<(Seq<char>, Option<Seq<char>>)>,
    id: Seq<char>,
    value: Seq<char>,
) -> bool {
    exists|i: int| #[trigger] is_given_at(values, id, value, i)
}

/// Whether a value is the first that was given under a name, at a place.
pub open spec fn is_given_at(
    values: Seq<(Seq<char>, Option<Seq<char>>)>,
    id: Seq<char>,
    value: Seq<char>,
    i: int,
) -> bool {
    &&& 0 <= i < values.len()
    &&& values[i] == (id, Some(value))
    &&& forall|j: int| 0 <= j < i && (#[trigger] values[j]).0 == id ==> values[j].1 is None
}

proof fn lemma_given(
    values: Seq<(Seq<char>, Option<Seq<char>>)>,
    id: Seq<char>,
    value: Seq<char>,
)
    ensures
        value_of(values, id) == Some(value) <==> is_given(values, id, value),
    decreases values.len(),
{
    if values.len() > 0 {
        let rest = values.drop_first();
        lemma_given(rest, id, value);
        let head = values.first().0 == id && values.first().1 is Some;
        if is_given(values, id, value) {
            let i = choose|i: int| #[trigger] is_given_at(values, id, value, i);
            if i == 0 {
                assert(head);
            } else {
                assert(!head) by {
                    assert(values[0].0 == id ==> values[0].1 is None);
                }
                assert(rest[i - 1] == values[i]);
                assert forall|j: int| 0 <= j < i - 1 && (#[trigger] rest[j]).0 == id implies rest[j].1
                    is None by {
                    assert(rest[j] == values[j + 1]);
                }
                assert(is_given_at(rest, id, value, i - 1));
            }
        }
        if value_of(values, id) == Some(value) {
            if head {
                assert(is_given_at(values, id, value, 0));
            } else {
                let i = choose|i: int| #[trigger] is_given_at(rest, id, value, i);
                assert(values[i + 1] == rest[i]);
                assert forall|j: int| 0 <= j < i + 1 && (#[trigger] values[j]).0 == id implies
                    values[j].1 is None by {
                    if j > 0 {
                        assert(values[j] == rest[j - 1]);
                    }
                }
                assert(is_given_at(values, id, value, i + 1));
            }
        }
    }
}

/// Whether nothing was given under a name.
pub open spec fn is_left_out(
    values: Seq<(Seq<char>, Option<Seq<char>>)>,
    id: Seq<char>,
) -> bool {
    forall|i: int| 0 <= i < values.len() && (#[trigger] values[i]).0 == id ==> values[i].1 is None
}

proof fn lemma_left_out(values: Seq<(Seq<char>, Option<Seq<char>>)>, id: Seq<char>)
    ensures
        value_of(values, id) is None <==> is_left_out(values, id),
    decreases values.len(),
{
    if values.len() > 0 {
        let rest = values.drop_first();
        lemma_left_out(rest, id);
        if is_left_out(values, id) {
            assert(values[0].0 == id ==> values[0].1 is None);
            assert forall|i: int| 0 <= i < rest.len() && (#[trigger] rest[i]).0 == id implies rest[i].1
                is None by {
                assert(rest[i] == values[i + 1]);
            }
        }
        if value_of(values, id) is None {
            assert forall|i: int| 0 <= i < values.len() && (#[trigger] values[i]).0 == id implies
                values[i].1 is None by {
                if i > 0 {
                    assert(values[i] == rest[i - 1]);
                }
            }
        }
    }
}

/// What is asked for is one of four actions; each but the list is for the profile whose name
/// is given, and a run continues the session that is given, if any. Without a name, and with
/// any other action, nothing is asked for.
pub proof fn law_actions(found: &Found, name: Seq<char>, action: Option<Action>)
    requires
        call_ensures(Found::action, (found,), action),
    ensures
        found@.action == "list"@ ==> action is Some && action->0@ == ActionView::List,
        is_given(found@.values, "name"@, name) ==> {
            &&& found@.action == "login"@ ==> action is Some && action->0@ == (ActionView::Login {
                name,
            })
            &&& found@.action == "logout"@ ==> action is Some && action->0@ == (
            ActionView::Logout { name })
            &&& found@.action == "run"@ ==> action is Some && (
            action->0@ matches ActionView::Run { name: known, resume } && known == name && {
                &&& resume is None <==> is_left_out(found@.values, "resume"@)
                &&& resume is Some ==> is_given(found@.values, "resume"@, resume->0)
            })
        },
        is_left_out(found@.values, "name"@) && found@.action != "list"@ ==> action is None,
        found@.action != "list"@ && found@.action != "login"@ && found@.action != "logout"@
            && found@.action != "run"@ ==> action is None,
{
    lemma_given(found@.values, "name"@, name);
    lemma_left_out(found@.values, "name"@);
    lemma_left_out(found@.values, "resume"@);
    if value_of(found@.values, "resume"@) is Some {
        lemma_given(found@.values, "resume"@, value_of(found@.values, "resume"@)->0);
    }
    reveal_strlit("list");
    reveal_strlit("login");
    reveal_strlit("logout");
    reveal_strlit("run");
    assert("list"@.len() == 4);
    assert("login"@.len() == 5);
    assert("logout"@.len() == 6);
    assert("run"@.len() == 3);
}

/// A command line that was refused stays refused, in the same words, and one on which nothing
/// was found is incomplete; otherwise what was found tells what is asked for.
pub proof fn law_understood_lines(
    found: Result<Option<Found>, Refusal>,
    action: Option<Action>,
    args: Result<Args, Refusal>,
)
    requires
        call_ensures(Args::from_found, (found,), args),
        found matches Ok(Some(known)) ==> call_ensures(Found::action, (&known,), action),
    ensures
        found matches Err(refusal) ==> args is Err && args->Err_0@ == refusal@,
        found matches Ok(None) ==> args is Err && args->Err_0@ == (RefusalView {
            text: "error: a required subcommand or argument was not provided\n"@,
            error: true,
        }),
        found matches Ok(Some(_)) ==> {
            &&& action is Some ==> args is Ok && args->Ok_0.command@ == action->0@
            &&& action is None ==> args is Err && args->Err_0@ == (RefusalView {
                text: "error: a required subcommand or argument was not provided\n"@,
                error: true,
            })
        },
{
}

/// The command line is read by a grammar of four actions, of which one has to be asked for:
/// three take the name of a profile, which has to be given, and one of these also a session,
/// which may be.
pub proof fn law_read_lines(line: &Vec<String>, args: Result<Args, Refusal>)
    requires
        call_ensures(Args::try_parse_from, (line,), args),
    ensures
        ({
            let name = ArgumentView {
                id: "name"@,
                shown: "NAME"@,
                required: true,
                long: None,
            };
            let resume = ArgumentView {
                id: "resume"@,
                shown: "RESUME"@,
                required: false,
                long: Some("resume"@),
            };
            let grammar = GrammarView {
                name: "coduck"@,
                version: "0.1.0"@,
                about: "Run Codex with a named ChatGPT account"@,
                required: true,
                actions: seq![
                    SubcommandView {
                        name: "login"@,
                        about: "save a ChatGPT account in this profile's keyring entry"@,
                        arguments: seq![name],
                    },
                    SubcommandView {
                        name: "list"@,
                        about: "show cached profile identities without contacting Codex"@,
                        arguments: Seq::empty(),
                    },
                    SubcommandView {
                        name: "run"@,
                        about: "run the official Codex terminal using this profile"@,
                        arguments: seq![name, resume],
                    },
                    SubcommandView {
                        name: "logout"@,
                        about: "remove this profile's local login"@,
                        arguments: seq![name],
                    },
                ],
            };
            args_view(args) == args_of(command_line(grammar, texts(line@)))
        }),
{
}

/// Whether a number is the width of a column of texts: the most bytes that its header or one of
/// them has.
pub open spec fn is_width(width: nat, header: Seq<char>, shown: Seq<Seq<char>>) -> bool {
    &&& vstd::utf8::encode_utf8(header).len() <= width
    &&& forall|i: int|
        0 <= i < shown.len() ==> vstd::utf8::encode_utf8(#[trigger] shown[i]).len() <= width
    &&& width == vstd::utf8::encode_utf8(header).len() || exists|i: int|
        0 <= i < shown.len() && vstd::utf8::encode_utf8(#[trigger] shown[i]).len() == width
}

/// What is shown in a column of the profiles of which something is remembered.
pub open spec fn column(profiles: Seq<ProfileSummary>, place: int) -> Seq<Seq<char>>
    decreases profiles.len(),
{
    if profiles.len() == 0 {
        Seq::empty()
    } else {
        let before = column(profiles.drop_last(), place);
        match profiles.last().metadata {
            Some(metadata) => before.push(
                if place == 0 {
                    profiles.last().name@
                } else if place == 1 {
                    match metadata.identity.email {
                        Some(email) => email@,
                        None => metadata.identity.account_id@,
                    }
                } else {
                    metadata.identity.plan_type@
                },
            ),
            None => before,
        }
    }
}

proof fn lemma_width(profiles: Seq<ProfileSummary>, place: int)
    requires
        0 <= place < 3,
    ensures
        is_width(
            column_width(profiles, place),
            if place == 0 {
                "PROFILE"@
            } else if place == 1 {
                "CACHED IDENTITY"@
            } else {
                "PLAN"@
            },
            column(profiles, place),
        ),
    decreases profiles.len(),
{
    if profiles.len() > 0 {
        lemma_width(profiles.drop_last(), place);
        let before = column(profiles.drop_last(), place);
        let shown = column(profiles, place);
        let old_width = column_width(profiles.drop_last(), place);
        let width = column_width(profiles, place);
        if profiles.last().metadata is Some {
            let text = shown.last();
            assert(text == cell(profiles.last().name@, profiles.last().metadata->0, place));
            assert(shown.drop_last() =~= before);
            assert forall|i: int| 0 <= i < shown.len() implies vstd::utf8::encode_utf8(
                #[trigger] shown[i],
            ).len() <= width by {
                if i < before.len() {
                    assert(shown[i] == before[i]);
                }
            }
            if byte_length(text) > old_width {
                assert(vstd::utf8::encode_utf8(shown[shown.len() - 1]).len() == width);
            } else if exists|i: int|
                0 <= i < before.len() && vstd::utf8::encode_utf8(#[trigger] before[i]).len()
                    == old_width {
                let i = choose|i: int|
                    0 <= i < before.len() && vstd::utf8::encode_utf8(#[trigger] before[i]).len()
                        == old_width;
                assert(shown[i] == before[i]);
            }
        }
    }
}

/// A text and the spaces that bring it to a width.
pub open spec fn brought_to(text: Seq<char>, width: nat) -> Seq<char> {
    text + Seq::new(
        if text.len() < width {
            (width - text.len()) as nat
        } else {
            0
        },
        |i: int| ' ',
    )
}

/// A row of the list, in columns of the given widths.
pub open spec fn row(
    first: Seq<char>,
    second: Seq<char>,
    third: Seq<char>,
    fourth: Seq<char>,
    widths: (nat, nat, nat),
) -> Seq<char> {
    brought_to(first, widths.0) + "  "@ + brought_to(second, widths.1) + "  "@ + brought_to(
        third,
        widths.2,
    ) + "  "@ + fourth + "\n"@
}

/// The row of a profile: its name, by what it is known, its plan and when that was verified; of
/// a profile of which nothing is remembered, its name and what to do.
pub open spec fn profile_row(profile: ProfileSummary, widths: (nat, nat, nat)) -> Seq<char> {
    match profile.metadata {
        Some(metadata) => row(
            profile.name@,
            match metadata.identity.email {
                Some(email) => email@,
                None => metadata.identity.account_id@,
            },
            metadata.identity.plan_type@,
            decimal_text(metadata.last_verified as nat),
            widths,
        ),
        None => brought_to(profile.name@, widths.0) + "  "@ + "incomplete; use coduck login "@
            + profile.name@ + "\n"@,
    }
}

/// The rows of profiles, in their order.
pub open spec fn rows(profiles: Seq<ProfileSummary>, widths: (nat, nat, nat)) -> Seq<char>
    decreases profiles.len(),
{
    if profiles.len() == 0 {
        Seq::empty()
    } else {
        rows(profiles.drop_last(), widths) + profile_row(profiles.last(), widths)
    }
}

/// Profiles are shown in columns as wide as what they hold, each in a row below the headers and
/// in the order in which they come; where there are none, it is said how to make one.
pub proof fn law_shown_profiles(
    profiles: &Vec<ProfileSummary>,
    widths: (nat, nat, nat),
    output: String,
)
    requires
        call_ensures(list_profiles, (profiles,), output),
        is_width(widths.0, "PROFILE"@, column(profiles@, 0)),
        is_width(widths.1, "CACHED IDENTITY"@, column(profiles@, 1)),
        is_width(widths.2, "PLAN"@, column(profiles@, 2)),
    ensures
        profiles@.len() == 0 ==> output@ == "No profiles. Use coduck login NAME.\n"@,
        profiles@.len() > 0 ==> output@ == row(
            "PROFILE"@,
            "CACHED IDENTITY"@,
            "PLAN"@,
            "LAST VERIFIED (UNIX SECONDS)"@,
            widths,
        ) + rows(profiles@, widths),
{
    lemma_width(profiles@, 0);
    lemma_width(profiles@, 1);
    lemma_width(profiles@, 2);
    lemma_one_width(widths.0, column_width(profiles@, 0), "PROFILE"@, column(profiles@, 0));
    lemma_one_width(widths.1, column_width(profiles@, 1), "CACHED IDENTITY"@, column(profiles@, 1));
    lemma_one_width(widths.2, column_width(profiles@, 2), "PLAN"@, column(profiles@, 2));
    lemma_row(
        column_header(0),
        column_header(1),
        column_header(2),
        column_header(3),
        profiles@,
        widths,
    );
    lemma_rows(profiles@, profiles@, widths);
}

proof fn lemma_one_width(a: nat, b: nat, header: Seq<char>, shown: Seq<Seq<char>>)
    requires
        is_width(a, header, shown),
        is_width(b, header, shown),
    ensures
        a == b,
{
}

proof fn lemma_brought_to(text: Seq<char>, width: nat)
    ensures
        padded(text, width) == brought_to(text, width),
{
    assert(padded(text, width) =~= brought_to(text, width));
}

proof fn lemma_row(
    first: Seq<char>,
    second: Seq<char>,
    third: Seq<char>,
    fourth: Seq<char>,
    all: Seq<ProfileSummary>,
    widths: (nat, nat, nat),
)
    requires
        widths.0 == column_width(all, 0),
        widths.1 == column_width(all, 1),
        widths.2 == column_width(all, 2),
    ensures
        line_of(first, second, third, fourth, all) == row(first, second, third, fourth, widths),
{
    lemma_brought_to(first, widths.0);
    lemma_brought_to(second, widths.1);
    lemma_brought_to(third, widths.2);
}

proof fn lemma_rows(
    profiles: Seq<ProfileSummary>,
    all: Seq<ProfileSummary>,
    widths: (nat, nat, nat),
)
    requires
        widths.0 == column_width(all, 0),
        widths.1 == column_width(all, 1),
        widths.2 == column_width(all, 2),
    ensures
        profile_lines(profiles, all) == rows(profiles, widths),
    decreases profiles.len(),
{
    if profiles.len() > 0 {
        lemma_rows(profiles.drop_last(), all, widths);
        let profile = profiles.last();
        assert(profile_line(profile, all) == profile_row(profile, widths)) by {
            lemma_brought_to(profile.name@, widths.0);
            if profile.metadata is Some {
                let metadata = profile.metadata->0;
                lemma_row(
                    cell(profile.name@, metadata, 0),
                    cell(profile.name@, metadata, 1),
                    cell(profile.name@, metadata, 2),
                    cell(profile.name@, metadata, 3),
                    all,
                    widths,
                );
            }
        }
    }
}

/// What is said of the failures of profiles and their records.
pub proof fn law_words_on_profiles(error: &Error, message: String)
    requires
        call_ensures(Error::message, (error,), message),
    ensures
        *error is IdentityChanged ==> message@ == "profile identity changed; logout and log in again explicitly"@,
        *error is EmptyStateHome ==> message@ == "CODUCK_HOME must not be empty"@,
        *error is HomeUnset ==> message@ == "HOME must be set and nonempty"@,
        *error is ProfileInUse ==> message@ == "profile is in use; close its running Coduck session first"@,
        *error is ProfileBusy ==> message@ == "profile credentials are busy; retry after the other operation finishes (older Coduck sessions must be closed once)"@,
        *error is InvalidProfileName ==> message@ == "profile name must match [a-z0-9][a-z0-9-]{0,47}"@,
        *error is InvalidStoredName ==> message@ == "invalid profile name in state directory"@,
        *error is ProfileMissing ==> message@ == "profile does not exist; use coduck login NAME first"@,
        *error is CannotInspectDirectory ==> message@ == "cannot inspect profile directory"@,
        *error is NotRealDirectory ==> message@ == "profile directory must be a real directory, not a symlink"@,
        *error is WrongDirectoryMode ==> message@ == "profile directory must have permissions 0700"@,
        *error is CannotCreateDirectory ==> message@ == "cannot create private profile directory"@,
        *error is WrongFileMode ==> message@ == "profile file must be regular with permissions 0600"@,
        *error is CannotReadFile ==> message@ == "cannot read private profile file"@,
        *error is FileTooLarge ==> message@ == "profile file exceeds size limit"@,
        *error is InvalidRecord ==> message@ == "invalid profile metadata or runtime record"@,
        *error is CannotSaveState ==> message@ == "cannot save private profile state"@,
        *error is UnrecordedSpawn ==> message@ == "an unrecorded spawn needs manual cleanup before continuing"@,
        *error is NoPendingSpawn ==> message@ == "no pending spawn to cancel"@,
        *error is InvalidChildGroup ==> message@ == "invalid child process group"@,
        *error is MissingChildGroup ==> message@ == "missing child process group"@,
        *error is UnmarkedSpawn ==> message@ == "child spawn was not marked before starting"@,
        *error is InterruptedSpawn ==> message@ == "an interrupted spawn has unknown child state; close leftover Codex processes, then manually remove this profile's runtime.json"@,
        *error is InvalidRecordedGroup ==> message@ == "invalid recorded process group; inspect runtime.json manually"@,
        *error is ChildMayBeRunning ==> message@ == "a previous Coduck child may still be running; close the leftover Codex process before retrying"@,
        *error is ClockBeforeEpoch ==> message@ == "second time provided was later than self"@,
{
}

/// What is said of the failures of tokens, helpers and logins.
pub proof fn law_words_on_logins(error: &Error, message: String)
    requires
        call_ensures(Error::message, (error,), message),
    ensures
        *error is OpaqueToken ==> message@ == "helper returned an opaque token; log in again"@,
        *error is InvalidToken ==> message@ == "helper returned an invalid token"@,
        *error is InvalidClaims ==> message@ == "helper returned invalid token claims"@,
        *error is NoExpiry ==> message@ == "helper token has no expiry"@,
        *error is TokenExpired ==> message@ == "helper token is expired or expiring; retry, then log in again if the problem persists"@,
        *error is MissingInformation ==> message@ == "helper response is missing required identity or login information"@,
        *error is NoUserIdentity ==> message@ == "helper token has no user identity"@,
        *error is UnsupportedPlan ==> message@ == "this ChatGPT plan is not supported by this Coduck version"@,
        *error is HelperStore ==> message@ == "auth helper must use the keyring credential store"@,
        *error is HelperProvider ==> message@ == "Coduck requires the default OpenAI provider and official ChatGPT backend"@,
        *error is InvalidAccount ==> message@ == "invalid helper account response"@,
        *error is LoginNotStarted ==> message@ == "helper did not start a managed ChatGPT login"@,
        *error is UnexpectedLoginUrl ==> message@ == "helper returned an unexpected login URL"@,
        *error is InvalidCompletion ==> message@ == "invalid helper login completion response"@,
        *error is LoginNotLoaded ==> message@ == "helper did not load the new ChatGPT login; retry coduck login"@,
        *error is TooManyNotifications ==> message@ == "too many unrelated notifications while waiting for login"@,
        *error is LoginTimedOut ==> message@ == "ChatGPT login timed out; retry coduck login"@,
        *error is NotManaged ==> message@ == "profile needs a managed ChatGPT login; run coduck login NAME"@,
        *error is UnsupportedRefresh ==> message@ == "unsupported authentication refresh reason"@,
        *error is WrongRefreshAccount ==> message@ == "refresh requested for a different account"@,
        *error is RefreshTimedOut ==> message@ == "profile authentication refresh timed out"@,
        *error is TokenNotRefreshed ==> message@ == "helper could not refresh the token; retry, then log in again if the problem persists"@,
        *error is StillSignedIn ==> message@ == "helper still has a local login; profile metadata was preserved"@,
{
}

/// What is said of the failures of servers and terminals.
pub proof fn law_words_on_servers(error: &Error, message: String)
    requires
        call_ensures(Error::message, (error,), message),
    ensures
        *error is CannotStartServer ==> message@ == "cannot start app-server"@,
        *error is MissingServerOutput ==> message@ == "missing app-server stdout"@,
        *error is MissingServerInput ==> message@ == "missing app-server stdin"@,
        *error is CannotEncode ==> message@ == "cannot encode RPC message"@,
        *error is MessageTooLarge ==> message@ == "RPC message exceeds size limit"@,
        *error is WriteTimedOut ==> message@ == "app-server write timed out"@,
        *error is WriteFailed ==> message@ == "app-server write failed"@,
        *error is Disconnected ==> message@ == "app-server disconnected"@,
        *error is ReadFailed ==> message@ == "app-server read failed"@,
        *error is FrameTooLarge ==> message@ == "app-server message exceeds size limit"@,
        *error is InvalidJson ==> message@ == "invalid app-server JSON"@,
        *error is TooManyBuffered ==> message@ == "too many buffered app-server messages"@,
        *error is RequestFailed ==> message@ == "app-server request failed"@,
        *error is InvalidResponse ==> message@ == "invalid app-server response"@,
        *error is RequestTimedOut ==> message@ == "app-server request timed out"@,
        *error is ShutdownTimedOut ==> message@ == "app-server shutdown timed out"@,
        *error is ShutdownFailed ==> message@ == "app-server shutdown failed"@,
        *error is HandshakeTimedOut ==> message@ == "UI handshake timed out"@,
        *error is HandshakeFailed ==> message@ == "UI handshake failed"@,
        *error is UiTimedOut ==> message@ == "UI initialization timed out"@,
        *error is UiGoneBeforeInitialize ==> message@ == "UI disconnected before initialization"@,
        *error is UiGoneBeforeInitialized ==> message@ == "UI disconnected before initialized"@,
        *error is ExpectedInitialize ==> message@ == "expected UI initialize request"@,
        *error is ExpectedInitialized ==> message@ == "expected UI initialized notification"@,
        *error is InitializationFailed ==> message@ == "coding session initialization failed"@,
        *error is DuplicateUiRequest ==> message@ == "duplicate UI request ID"@,
        *error is TooManyUiRequests ==> message@ == "too many pending UI requests"@,
        *error is TooManyServerRequests ==> message@ == "too many pending app-server requests"@,
        *error is DuplicateServerRequest ==> message@ == "duplicate app-server request ID"@,
        *error is UnknownResponse ==> message@ == "unknown app-server response ID"@,
        *error is InvalidPrivateError ==> message@ == "invalid private app-server error"@,
        *error is InvalidPrivateResponse ==> message@ == "invalid private app-server response"@,
        *error is PrivateTimedOut ==> message@ == "private app-server request timed out"@,
        *error is HostRefreshFailed ==> message@ == "host token refresh failed"@,
        *error is HostLogoutFailed ==> message@ == "host logout failed"@,
        *error is MissingId ==> message@ == "missing RPC request ID"@,
        *error is InvalidId ==> message@ == "invalid RPC request ID"@,
        *error is MissingConfiguration ==> message@ == "missing effective coding configuration"@,
        *error is UnsupportedProvider ==> message@ == "unsupported model_provider"@,
        *error is UnsupportedStore ==> message@ == "coding credential storage must be ephemeral"@,
        *error is UnsupportedOverride ==> message@ == "unsupported model_providers.openai override"@,
        *error is UnsupportedBaseUrl ==> message@ == "unsupported chatgpt_base_url"@,
        *error is HostDisconnected ==> message@ == "authentication host disconnected"@,
        *error is HostTimedOut ==> message@ == "authentication host timed out"@,
        *error is InvalidUiJson ==> message@ == "invalid UI JSON"@,
        *error is InvalidUiMessage ==> message@ == "invalid UI RPC message"@,
        *error is UiReadFailed ==> message@ == "UI WebSocket read failed"@,
        *error is UiTooLarge ==> message@ == "UI message exceeds size limit"@,
        *error is UiWriteTimedOut ==> message@ == "UI WebSocket write timed out"@,
        *error is UiWriteFailed ==> message@ == "UI WebSocket write failed"@,
{
}

/// What is said of the failures of commands, Codex and its terminal.
pub proof fn law_words_on_commands(error: &Error, message: String)
    requires
        call_ensures(Error::message, (error,), message),
    ensures
        *error is Interrupted ==> message@ == "interrupted"@,
        *error is LogoutInterrupted ==> message@ == "interrupted; retry logout to confirm local credential removal"@,
        *error is LoginInterrupted ==> message@ == "login interrupted"@,
        *error is VerificationInterrupted ==> message@ == "login verification interrupted; retry coduck login"@,
        *error is AuthenticationTimedOut ==> message@ == "profile authentication timed out"@,
        *error is TerminalNotConnected ==> message@ == "Codex terminal did not connect"@,
        *error is ConnectionTaskFailed ==> message@ == "coding connection task failed"@,
        *error is TerminalUnsuccessful ==> message@ == "Codex terminal exited unsuccessfully"@,
        *error is EmptyCodexPath ==> message@ == "CODUCK_CODEX must not be empty"@,
        *error is EmptyCodexHome ==> message@ == "CODEX_HOME must not be empty"@,
        *error is VersionTimedOut ==> message@ == "Codex version check timed out"@,
        *error is CannotExecuteCodex ==> message@ == "cannot execute Codex; check CODUCK_CODEX or PATH"@,
        *error is UnsupportedVersion ==> message@ == "unsupported Codex version; Coduck requires codex-cli 0.154.0"@,
        *error is CannotResolveCodex ==> message@ == "cannot resolve installed Codex executable"@,
        *error is CodexNotFound ==> message@ == "Codex executable not found; install Codex 0.154.0 and set CODUCK_CODEX or PATH"@,
        *error is CannotObserveExit ==> message@ == "cannot observe child process exit"@,
        *error is CannotSignal ==> message@ == "cannot signal owned child process group"@,
        *error is NotInteractive ==> message@ == "coduck run requires an interactive terminal"@,
        *error is NotForeground ==> message@ == "run coduck in the foreground of your terminal"@,
        *error is CannotSaveTerminal ==> message@ == "cannot save terminal settings"@,
        *error is CannotStartTerminal ==> message@ == "cannot start Codex terminal"@,
        *error is TerminalStopped ==> message@ == "terminal already stopped"@,
        *error is TerminalNotFinished ==> message@ == "Codex terminal did not finish shutting down"@,
        *error is TerminalShutdownTimedOut ==> message@ == "terminal shutdown timed out"@,
        *error matches Error::Outside(words) ==> message@ == words@,
{
}

} // verus!
