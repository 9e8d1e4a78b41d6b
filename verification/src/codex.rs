//! The installed Codex: which executable it is, and how it is started.

use crate::error::Error;
use crate::path::{append_bytes, bytes_of, copy_bytes, join_path, SLASH};
use crate::profile::home_directory;
use crate::text::{begins_with, same_bytes, split_bytes};
use vstd::prelude::*;

use crate::path::{is_rooted, joined_path, lemma_path_bytes_injective, path_bytes};
use crate::profile::{bytes_view, home_of};
use crate::text::split_parts;

verus! {

/// The version that is supported.
pub const SUPPORTED_VERSION: &'static str = "codex-cli 0.154.0";

/// For how many seconds Codex may take to tell its version.
pub const VERSION_TIMEOUT: u64 = 10;

/// What lists of bytes hold.
pub open spec fn bytes_list(list: Seq<Vec<u8>>) -> Seq<Seq<u8>> {
    list.map_values(|bytes: Vec<u8>| bytes@)
}

/// A change to the environment that a child inherits.
pub struct EnvChange {
    pub key: Vec<u8>,
    /// What the variable is set to; none where it is removed.
    pub value: Option<Vec<u8>>,
}

/// What a change says.
pub struct EnvChangeView {
    pub key: Seq<u8>,
    pub value: Option<Seq<u8>>,
}

impl View for EnvChange {
    type V = EnvChangeView;

    open spec fn view(&self) -> EnvChangeView {
        EnvChangeView {
            key: self.key@,
            value: match self.value {
                Some(value) => Some(value@),
                None => None,
            },
        }
    }
}

/// How a child is started.
pub struct ChildCommand {
    pub program: Vec<u8>,
    pub args: Vec<Vec<u8>>,
    /// The changes to the inherited environment, in order.
    pub environment: Vec<EnvChange>,
    pub cwd: Vec<u8>,
}

/// What a command says.
#[verifier::ext_equal]
pub struct ChildCommandView {
    pub program: Seq<u8>,
    pub args: Seq<Seq<u8>>,
    pub environment: Seq<EnvChangeView>,
    pub cwd: Seq<u8>,
}

/// What changes to an environment say.
pub open spec fn changes_view(changes: Seq<EnvChange>) -> Seq<EnvChangeView> {
    changes.map_values(|change: EnvChange| change@)
}

impl View for ChildCommand {
    type V = ChildCommandView;

    open spec fn view(&self) -> ChildCommandView {
        ChildCommandView {
            program: self.program@,
            args: bytes_list(self.args@),
            environment: changes_view(self.environment@),
            cwd: self.cwd@,
        }
    }
}

/// Whether a variable is kept from children: it would configure Codex or its credentials.
/// The choice of a certificate authority is inherited.
pub open spec fn is_hidden(key: Seq<u8>) -> bool {
    ||| path_bytes("CODEX_"@).is_prefix_of(key) && key != path_bytes("CODEX_CA_CERTIFICATE"@)
    ||| path_bytes("OPENAI_"@).is_prefix_of(key)
}

fn hidden(key: &[u8]) -> (yes: bool)
    ensures
        yes == is_hidden(key@),
{
    begins_with(key, bytes_of("CODEX_").as_slice()) && !same_bytes(
        key,
        bytes_of("CODEX_CA_CERTIFICATE").as_slice(),
    ) || begins_with(key, bytes_of("OPENAI_").as_slice())
}

/// The removal of a variable.
pub open spec fn removal(key: Seq<u8>) -> EnvChangeView {
    EnvChangeView { key, value: None }
}

/// The setting of a variable.
pub open spec fn setting(key: Seq<u8>, value: Seq<u8>) -> EnvChangeView {
    EnvChangeView { key, value: Some(value) }
}

/// The removals of those of the variables that are kept from children.
pub open spec fn removals(keys: Seq<Seq<u8>>) -> Seq<EnvChangeView>
    decreases keys.len(),
{
    if keys.len() == 0 {
        Seq::empty()
    } else if is_hidden(keys.last()) {
        removals(keys.drop_last()).push(removal(keys.last()))
    } else {
        removals(keys.drop_last())
    }
}

/// The changes to an environment of the given variables for a child with a home of its own.
pub open spec fn environment_changes(keys: Seq<Seq<u8>>, home: Seq<u8>) -> Seq<EnvChangeView> {
    removals(keys) + seq![
        removal(path_bytes("RUST_LOG"@)),
        setting(path_bytes("CODEX_HOME"@), home),
        setting(
            path_bytes("CODEX_INTERNAL_APP_SERVER_REMOTE_CONTROL_DISABLED"@),
            path_bytes("1"@),
        ),
    ]
}

/// The installed Codex and where it is run.
pub struct Codex {
    executable: Vec<u8>,
    cwd: Vec<u8>,
    home: Vec<u8>,
}

/// What is known of the installed Codex.
pub struct CodexView {
    pub executable: Seq<u8>,
    pub cwd: Seq<u8>,
    pub home: Seq<u8>,
}

impl View for Codex {
    type V = CodexView;

    closed spec fn view(&self) -> CodexView {
        CodexView { executable: self.executable@, cwd: self.cwd@, home: self.home@ }
    }
}

/// Where Codex keeps its state: the directory in `CODEX_HOME`, taken from the working
/// directory, or else the usual place in the home directory.
pub open spec fn codex_home(
    configured: Option<Seq<u8>>,
    home: Option<Seq<u8>>,
    cwd: Seq<u8>,
) -> Result<Seq<u8>, Error> {
    match configured {
        Some(path) => if path.len() > 0 {
            Ok(joined_path(cwd, path))
        } else {
            Err(Error::EmptyCodexHome)
        },
        None => match home_of(home) {
            Ok(path) => Ok(joined_path(path, path_bytes(".codex"@))),
            Err(error) => Err(error),
        },
    }
}

impl CodexView {
    /// How any child is started.
    pub open spec fn command(
        self,
        home: Seq<u8>,
        cwd: Seq<u8>,
        args: Seq<Seq<u8>>,
        keys: Seq<Seq<u8>>,
    ) -> ChildCommandView {
        ChildCommandView {
            program: self.executable,
            args,
            environment: environment_changes(keys, home),
            cwd,
        }
    }

    /// How the helper that keeps credentials is started: with a home of its own.
    pub open spec fn helper(self, home: Seq<u8>, keys: Seq<Seq<u8>>) -> ChildCommandView {
        self.command(
            home,
            home,
            seq![
                path_bytes("-c"@),
                path_bytes("cli_auth_credentials_store=\"keyring\""@),
                path_bytes("app-server"@),
                path_bytes("--stdio"@),
            ],
            keys,
        )
    }

    /// How a coding server is started: it keeps no credentials.
    pub open spec fn coding(self, keys: Seq<Seq<u8>>) -> ChildCommandView {
        self.command(
            self.home,
            self.cwd,
            seq![
                path_bytes("-c"@),
                path_bytes("cli_auth_credentials_store=\"ephemeral\""@),
                path_bytes("app-server"@),
                path_bytes("--stdio"@),
            ],
            keys,
        )
    }

    /// How the terminal is started: at a socket, and where it is told so with a session to
    /// continue.
    pub open spec fn terminal(
        self,
        socket: Seq<char>,
        resume: Option<Seq<char>>,
        keys: Seq<Seq<u8>>,
    ) -> ChildCommandView {
        let args = seq![
            path_bytes("-c"@),
            path_bytes("cli_auth_credentials_store=\"ephemeral\""@),
            path_bytes("--remote"@),
            path_bytes("unix://"@) + path_bytes(socket),
        ];
        self.command(
            self.home,
            self.cwd,
            match resume {
                Some(session) => args + seq![
                    path_bytes("resume"@),
                    path_bytes("--"@),
                    path_bytes(session),
                ],
                None => args,
            },
            keys,
        )
    }

    /// How Codex is asked for its version.
    pub open spec fn version(self, keys: Seq<Seq<u8>>) -> ChildCommandView {
        self.command(self.home, self.cwd, seq![path_bytes("--version"@)], keys)
    }
}

impl Codex {
    /// An executable that is run in a directory, with a home.
    pub fn new(executable: Vec<u8>, cwd: Vec<u8>, home: Vec<u8>) -> (codex: Codex)
        ensures
            codex@ == (CodexView { executable: executable@, cwd: cwd@, home: home@ }),
    {
        Codex { executable, cwd, home }
    }

    /// An executable that is run in the working directory, with the home that the
    /// environment names in `CODEX_HOME` or else `HOME`.
    pub fn resolve(
        executable: Vec<u8>,
        cwd: Vec<u8>,
        configured: Option<&[u8]>,
        home: Option<&[u8]>,
    ) -> (codex: Result<Codex, Error>)
        ensures
            match codex_home(bytes_view(configured), bytes_view(home), cwd@) {
                Ok(path) => codex is Ok && codex->Ok_0@ == (CodexView {
                    executable: executable@,
                    cwd: cwd@,
                    home: path,
                }),
                Err(error) => codex == Err::<Codex, Error>(error),
            },
    {
        let home = match configured {
            Some(path) => if path.len() > 0 {
                join_path(cwd.as_slice(), path)
            } else {
                return Err(Error::EmptyCodexHome);
            },
            None => match home_directory(home) {
                Ok(path) => join_path(path, bytes_of(".codex").as_slice()),
                Err(error) => return Err(error),
            },
        };
        Ok(Codex { executable, cwd, home })
    }

    fn command(&self, home: &[u8], cwd: &[u8], args: Vec<Vec<u8>>, keys: &Vec<Vec<u8>>) -> (command:
        ChildCommand)
        ensures
            command@ == self@.command(home@, cwd@, bytes_list(args@), bytes_list(keys@)),
    {
        let mut environment: Vec<EnvChange> = Vec::new();
        let ghost names = bytes_list(keys@);
        let mut i: usize = 0;
        assert(changes_view(environment@) =~= removals(names.take(0)));
        while i < keys.len()
            invariant
                i <= keys.len(),
                names == bytes_list(keys@),
                changes_view(environment@) == removals(names.take(i as int)),
            decreases keys.len() - i,
        {
            let ghost before = environment@;
            let ghost change = removal(keys@[i as int]@);
            assert(names.take(i + 1).drop_last() =~= names.take(i as int));
            assert(names.take(i + 1).last() == keys@[i as int]@);
            if hidden(keys[i].as_slice()) {
                let key = copy_bytes(keys[i].as_slice());
                environment.push(EnvChange { key, value: None });
                assert(changes_view(environment@) =~= changes_view(before).push(change));
            }
            i += 1;
        }
        assert(names.take(keys.len() as int) =~= names);
        environment.push(EnvChange { key: bytes_of("RUST_LOG"), value: None });
        environment.push(EnvChange { key: bytes_of("CODEX_HOME"), value: Some(copy_bytes(home)) });
        environment.push(
            EnvChange {
                key: bytes_of("CODEX_INTERNAL_APP_SERVER_REMOTE_CONTROL_DISABLED"),
                value: Some(bytes_of("1")),
            },
        );
        assert(changes_view(environment@) =~= environment_changes(names, home@));
        ChildCommand {
            program: copy_bytes(self.executable.as_slice()),
            args,
            environment,
            cwd: copy_bytes(cwd),
        }
    }

    /// How the helper that keeps a profile's credentials is started. `keys` are the variables
    /// of the environment.
    pub fn helper(&self, home: &[u8], keys: &Vec<Vec<u8>>) -> (command: ChildCommand)
        ensures
            command@ == self@.helper(home@, bytes_list(keys@)),
    {
        let mut args: Vec<Vec<u8>> = Vec::new();
        args.push(bytes_of("-c"));
        args.push(bytes_of("cli_auth_credentials_store=\"keyring\""));
        args.push(bytes_of("app-server"));
        args.push(bytes_of("--stdio"));
        let command = self.command(home, home, args, keys);
        assert(command@ =~= self@.helper(home@, bytes_list(keys@)));
        command
    }

    /// How a coding server is started.
    pub fn coding(&self, keys: &Vec<Vec<u8>>) -> (command: ChildCommand)
        ensures
            command@ == self@.coding(bytes_list(keys@)),
    {
        let mut args: Vec<Vec<u8>> = Vec::new();
        args.push(bytes_of("-c"));
        args.push(bytes_of("cli_auth_credentials_store=\"ephemeral\""));
        args.push(bytes_of("app-server"));
        args.push(bytes_of("--stdio"));
        let command = self.command(self.home.as_slice(), self.cwd.as_slice(), args, keys);
        assert(command@ =~= self@.coding(bytes_list(keys@)));
        command
    }

    /// How the terminal is started at a socket, with a session to continue where there is one.
    pub fn terminal(&self, socket: &str, resume: Option<&str>, keys: &Vec<Vec<u8>>) -> (command:
        ChildCommand)
        ensures
            command@ == self@.terminal(
                socket@,
                match resume {
                    Some(session) => Some(session@),
                    None => None,
                },
                bytes_list(keys@),
            ),
    {
        let mut args: Vec<Vec<u8>> = Vec::new();
        args.push(bytes_of("-c"));
        args.push(bytes_of("cli_auth_credentials_store=\"ephemeral\""));
        args.push(bytes_of("--remote"));
        let mut address = bytes_of("unix://");
        append_bytes(&mut address, socket.as_bytes());
        args.push(address);
        if let Some(session) = resume {
            args.push(bytes_of("resume"));
            args.push(bytes_of("--"));
            args.push(bytes_of(session));
        }
        let command = self.command(self.home.as_slice(), self.cwd.as_slice(), args, keys);
        assert(command@ =~= self@.terminal(
            socket@,
            match resume {
                Some(session) => Some(session@),
                None => None,
            },
            bytes_list(keys@),
        ));
        command
    }

    /// How Codex is asked for its version.
    pub fn version(&self, keys: &Vec<Vec<u8>>) -> (command: ChildCommand)
        ensures
            command@ == self@.version(bytes_list(keys@)),
    {
        let mut args: Vec<Vec<u8>> = Vec::new();
        args.push(bytes_of("--version"));
        let command = self.command(self.home.as_slice(), self.cwd.as_slice(), args, keys);
        assert(command@ =~= self@.version(bytes_list(keys@)));
        command
    }
}

/// What came of asking Codex for its version.
pub enum VersionReply {
    TimedOut,
    Failed,
    Finished { success: bool, output: Vec<u8> },
}

/// Accepts the one version that is supported.
pub fn check_version(reply: &VersionReply) -> (result: Result<(), Error>)
    ensures
        result == (match reply {
            VersionReply::TimedOut => Err(Error::VersionTimedOut),
            VersionReply::Failed => Err(Error::CannotExecuteCodex),
            VersionReply::Finished { success, output } => if *success && output@ == path_bytes(
                SUPPORTED_VERSION@,
            ).push(10u8) {
                Ok(())
            } else {
                Err(Error::UnsupportedVersion)
            },
        }),
{
    match reply {
        VersionReply::TimedOut => Err(Error::VersionTimedOut),
        VersionReply::Failed => Err(Error::CannotExecuteCodex),
        VersionReply::Finished { success, output } => {
            let mut expected = bytes_of(SUPPORTED_VERSION);
            expected.push(10u8);
            if *success && same_bytes(output.as_slice(), expected.as_slice()) {
                Ok(())
            } else {
                Err(Error::UnsupportedVersion)
            }
        },
    }
}

/// The program that is looked for: the one that `CODUCK_CODEX` names, or else `codex`.
pub fn program(configured: Option<&[u8]>) -> (program: Result<Vec<u8>, Error>)
    ensures
        match bytes_view(configured) {
            Some(path) => if path.len() > 0 {
                program is Ok && program->Ok_0@ == path
            } else {
                program == Err::<Vec<u8>, Error>(Error::EmptyCodexPath)
            },
            None => program is Ok && program->Ok_0@ == path_bytes("codex"@),
        },
{
    match configured {
        Some(path) => if path.len() > 0 {
            Ok(copy_bytes(path))
        } else {
            Err(Error::EmptyCodexPath)
        },
        None => Ok(bytes_of("codex")),
    }
}

/// Whether a part between separators is a component of a path: an empty part is none, and
/// neither is a `.` but at the beginning.
pub open spec fn is_component(parts: Seq<Seq<u8>>, i: int) -> bool {
    parts[i].len() > 0 && (i == 0 || parts[i] != path_bytes("."@))
}

/// Whether a path has more than one component.
pub open spec fn has_directory(path: Seq<u8>) -> bool {
    let parts = split_parts(path, SLASH);
    exists|i: int, j: int|
        0 <= i < j < parts.len() && #[trigger] is_component(parts, i) && #[trigger] is_component(
            parts,
            j,
        )
}

/// The paths at which a program may lie: a path stands for itself, and a bare name is
/// looked for in each directory of the search path.
pub open spec fn candidates_of(path: Seq<u8>, search: Seq<u8>) -> Seq<Seq<u8>> {
    if has_directory(path) || is_rooted(path) {
        seq![path]
    } else {
        split_parts(search, 58u8).map_values(|directory: Seq<u8>| joined_path(directory, path))
    }
}

fn names_directory(path: &[u8]) -> (yes: bool)
    ensures
        yes == has_directory(path@),
{
    let parts = split_bytes(path, SLASH);
    let dot = bytes_of(".");
    let ghost names = split_parts(path@, SLASH);
    assert(names =~= bytes_list(parts@));
    let mut i: usize = 0;
    let mut seen = false;
    let ghost mut first: int = 0;
    while i < parts.len()
        invariant
            i <= parts.len(),
            names == bytes_list(parts@),
            names == split_parts(path@, SLASH),
            dot@ == path_bytes("."@),
            seen ==> 0 <= first < i && is_component(names, first),
            !seen ==> forall|k: int| 0 <= k < i ==> !is_component(names, k),
            seen ==> forall|k: int| 0 <= k < i && k != first ==> !is_component(names, k),
        decreases parts.len() - i,
    {
        assert(names[i as int] == parts@[i as int]@);
        if parts[i].len() > 0 && (i == 0 || !same_bytes(parts[i].as_slice(), dot.as_slice())) {
            assert(is_component(names, i as int));
            if seen {
                assert(is_component(names, first) && is_component(names, i as int));
                return true;
            }
            seen = true;
            proof {
                first = i as int;
            }
        }
        i += 1;
    }
    false
}

/// Lists the paths at which a program may lie. `search` is the value of `PATH`, empty where
/// it is not set.
pub fn candidates(path: &[u8], search: &[u8]) -> (paths: Vec<Vec<u8>>)
    ensures
        bytes_list(paths@) == candidates_of(path@, search@),
{
    let mut paths: Vec<Vec<u8>> = Vec::new();
    if names_directory(path) || path.len() > 0 && path[0] == SLASH {
        paths.push(copy_bytes(path));
        assert(bytes_list(paths@) =~= candidates_of(path@, search@));
        return paths;
    }
    let directories = split_bytes(search, 58u8);
    let ghost names = split_parts(search@, 58u8);
    let ghost place = |directory: Seq<u8>| joined_path(directory, path@);
    assert(names =~= bytes_list(directories@));
    let mut i: usize = 0;
    assert(bytes_list(paths@) =~= names.take(0).map_values(place));
    while i < directories.len()
        invariant
            i <= directories.len(),
            names == bytes_list(directories@),
            place == (|directory: Seq<u8>| joined_path(directory, path@)),
            bytes_list(paths@) == names.take(i as int).map_values(place),
        decreases directories.len() - i,
    {
        let ghost before = paths@;
        let joined = join_path(directories[i].as_slice(), path);
        let ghost last = joined@;
        assert(last == place(names[i as int]));
        paths.push(joined);
        assert(bytes_list(paths@) =~= bytes_list(before).push(last));
        assert(names.take(i + 1).map_values(place) =~= names.take(i as int).map_values(place).push(
            last,
        ));
        i += 1;
    }
    assert(names.take(directories.len() as int) =~= names);
    paths
}

/// What the system says of a file; none where it says nothing.
pub struct FileFacts {
    pub file: bool,
    pub mode: u32,
}

/// Whether a file can be executed by someone.
pub open spec fn is_executable(facts: Option<FileFacts>) -> bool {
    match facts {
        Some(known) => known.file && known.mode & 0o111 != 0,
        None => false,
    }
}

/// Whether none of the first files of a list can be executed.
pub open spec fn none_executable(facts: Seq<Option<FileFacts>>, count: int) -> bool {
    forall|j: int| 0 <= j < count ==> !is_executable(#[trigger] facts[j])
}

/// Chooses the first of the candidates that can be executed.
pub fn find_executable(facts: &Vec<Option<FileFacts>>) -> (chosen: Result<usize, Error>)
    ensures
        match chosen {
            Ok(i) => {
                &&& i < facts@.len()
                &&& is_executable(facts@[i as int])
                &&& forall|j: int| 0 <= j < i ==> !#[trigger] is_executable(facts@[j])
                &&& none_executable(facts@, i as int)
            },
            Err(error) => {
                &&& error == Error::CodexNotFound
                &&& forall|j: int| 0 <= j < facts@.len() ==> !#[trigger] is_executable(facts@[j])
                &&& none_executable(facts@, facts@.len() as int)
            },
        },
{
    let mut i: usize = 0;
    while i < facts.len()
        invariant
            i <= facts.len(),
            none_executable(facts@, i as int),
        decreases facts.len() - i,
    {
        let executable = match &facts[i] {
            Some(known) => known.file && known.mode & 0o111 != 0,
            None => false,
        };
        if executable {
            return Ok(i);
        }
        i += 1;
    }
    Err(Error::CodexNotFound)
}

/// An environment after changes.
pub open spec fn changed(environment: Map<Seq<u8>, Seq<u8>>, changes: Seq<EnvChangeView>) -> Map<
    Seq<u8>,
    Seq<u8>,
>
    decreases changes.len(),
{
    if changes.len() == 0 {
        environment
    } else {
        let before = changed(environment, changes.drop_last());
        match changes.last().value {
            Some(value) => before.insert(changes.last().key, value),
            None => before.remove(changes.last().key),
        }
    }
}

proof fn lemma_removals(environment: Map<Seq<u8>, Seq<u8>>, keys: Seq<Seq<u8>>)
    ensures
        changed(environment, removals(keys)) == environment.remove_keys(
            Set::new(|key: Seq<u8>| is_hidden(key) && keys.contains(key)),
        ),
    decreases keys.len(),
{
    let gone = Set::new(|key: Seq<u8>| is_hidden(key) && keys.contains(key));
    if keys.len() == 0 {
        assert(environment.remove_keys(gone) =~= environment);
    } else {
        let before = keys.drop_last();
        lemma_removals(environment, before);
        let earlier = Set::new(|key: Seq<u8>| is_hidden(key) && before.contains(key));
        assert forall|key: Seq<u8>| #[trigger] keys.contains(key) == (before.contains(key) || key
            == keys.last()) by {
            if before.contains(key) {
                let i = before.index_of(key);
                assert(keys[i] == key);
            }
            if key == keys.last() {
                assert(keys[keys.len() - 1] == key);
            }
            if keys.contains(key) && key != keys.last() {
                let i = choose|i: int| 0 <= i < keys.len() && keys[i] == key;
                assert(before[i] == key);
            }
        }
        if is_hidden(keys.last()) {
            let changes = removals(keys);
            assert(changes.drop_last() =~= removals(before));
            assert(environment.remove_keys(gone) =~= environment.remove_keys(earlier).remove(
                keys.last(),
            ));
        } else {
            assert(gone =~= earlier);
        }
    }
}

/// The environment of a child: it has the home that it was given and cannot be controlled
/// from elsewhere, nothing else configures Codex or its credentials, and every other variable
/// is inherited as it is.
pub proof fn law_child_environment(
    environment: Map<Seq<u8>, Seq<u8>>,
    keys: Seq<Seq<u8>>,
    home: Seq<u8>,
)
    requires
        forall|key: Seq<u8>| #[trigger] environment.contains_key(key) ==> keys.contains(key),
    ensures
        ({
            let child = changed(environment, environment_changes(keys, home));
            let place = path_bytes("CODEX_HOME"@);
            let control = path_bytes("CODEX_INTERNAL_APP_SERVER_REMOTE_CONTROL_DISABLED"@);
            &&& child.contains_key(place) && child[place] == home
            &&& child.contains_key(control) && child[control] == path_bytes("1"@)
            &&& forall|key: Seq<u8>|
                key != place && key != control ==> (#[trigger] child.contains_key(key) <==> {
                    &&& environment.contains_key(key)
                    &&& !is_hidden(key)
                    &&& key != path_bytes("RUST_LOG"@)
                })
            &&& forall|key: Seq<u8>|
                key != place && key != control && child.contains_key(key) ==> #[trigger] child[key]
                    == environment[key]
        }),
{
    let place = path_bytes("CODEX_HOME"@);
    let control = path_bytes("CODEX_INTERNAL_APP_SERVER_REMOTE_CONTROL_DISABLED"@);
    let log = path_bytes("RUST_LOG"@);
    reveal_strlit("CODEX_HOME");
    reveal_strlit("CODEX_INTERNAL_APP_SERVER_REMOTE_CONTROL_DISABLED");
    reveal_strlit("RUST_LOG");
    assert("CODEX_HOME"@.len() == 10);
    assert("CODEX_INTERNAL_APP_SERVER_REMOTE_CONTROL_DISABLED"@.len() == 49);
    assert("RUST_LOG"@.len() == 8);
    if place == control {
        lemma_path_bytes_injective(
            "CODEX_HOME"@,
            "CODEX_INTERNAL_APP_SERVER_REMOTE_CONTROL_DISABLED"@,
        );
    }
    if place == log {
        lemma_path_bytes_injective("CODEX_HOME"@, "RUST_LOG"@);
    }
    if control == log {
        lemma_path_bytes_injective(
            "CODEX_INTERNAL_APP_SERVER_REMOTE_CONTROL_DISABLED"@,
            "RUST_LOG"@,
        );
    }
    lemma_removals(environment, keys);
    let base = removals(keys);
    let first = base.push(removal(log));
    let second = first.push(setting(place, home));
    let third = second.push(setting(control, path_bytes("1"@)));
    assert(third =~= environment_changes(keys, home));
    assert(third.drop_last() =~= second);
    assert(second.drop_last() =~= first);
    assert(first.drop_last() =~= base);
    let gone = Set::new(|key: Seq<u8>| is_hidden(key) && keys.contains(key));
    assert(changed(environment, first) == environment.remove_keys(gone).remove(log));
    assert(changed(environment, second) == changed(environment, first).insert(place, home));
    assert(changed(environment, third) == changed(environment, second).insert(
        control,
        path_bytes("1"@),
    ));
}

/// The helper of a profile is kept apart: it runs in the profile's home and knows no other,
/// while what codes and what is seen share the home of the user.
pub proof fn law_helper_has_a_home_of_its_own(
    codex: CodexView,
    home: Seq<u8>,
    socket: Seq<char>,
    resume: Option<Seq<char>>,
    keys: Seq<Seq<u8>>,
)
    ensures
        codex.helper(home, keys).cwd == home,
        codex.helper(home, keys).environment == environment_changes(keys, home),
        codex.coding(keys).cwd == codex.cwd,
        codex.coding(keys).environment == environment_changes(keys, codex.home),
        codex.terminal(socket, resume, keys).cwd == codex.cwd,
        codex.terminal(socket, resume, keys).environment == codex.coding(keys).environment,
{
}

} // verus!
