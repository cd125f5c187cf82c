//! The command bridge: a fixed dispatch table from command names to native
//! operations, argument validation, and the mapping from a native outcome
//! to the uniform invocation result.

use vstd::prelude::*;

use crate::invocation::ArgValue;
use crate::invocation::Invocation;
use crate::invocation::InvocationResult;
use crate::invocation::Payload;
use crate::invocation::SystemInfo;
use crate::invocation::app_version_text;
use crate::listing::collect_display_names;
use crate::listing::display_names;

verus! {

/// The four native operations the bridge exposes.
#[derive(Clone, Copy, Debug, PartialEq, Eq)]
pub enum CommandId {
    GetSystemInfo,
    ReadLocalFile,
    WriteLocalFile,
    ListDirectory,
}

/// One registration: a command name bound to the operation it invokes.
pub struct CommandEntry {
    pub name: String,
    pub command: CommandId,
}

/// The dispatch table: registered once at startup, immutable afterwards,
/// and the only route from a command name to an operation.
pub struct DispatchTable {
    entries: Vec<CommandEntry>,
}

/// The name `name` is bound to the operation `c` in the table `t`.
pub open spec fn registered(t: Seq<(Seq<char>, CommandId)>, name: Seq<char>, c: CommandId) -> bool {
    exists|i: int| 0 <= i < t.len() && t[i] == (name, c)
}

/// Some operation is registered under the name `name` in the table `t`.
pub open spec fn known(t: Seq<(Seq<char>, CommandId)>, name: Seq<char>) -> bool {
    exists|i: int| 0 <= i < t.len() && t[i].0 == name
}

impl View for DispatchTable {
    type V = Seq<(Seq<char>, CommandId)>;

    closed spec fn view(&self) -> Seq<(Seq<char>, CommandId)> {
        self.entries@.map_values(|e: CommandEntry| (e.name@, e.command))
    }
}

impl DispatchTable {
    /// Every registered command name is unique, so dispatch is a function
    /// of the table and the name alone.
    pub open spec fn wf(&self) -> bool {
        forall|i: int, j: int| 0 <= i < j < self@.len() ==> self@[i].0 != self@[j].0
    }

    /// A table with no registrations.
    pub fn empty() -> (r: DispatchTable)
        ensures
            r@ == Seq::<(Seq<char>, CommandId)>::empty(),
            r.wf(),
    {
        let r = DispatchTable { entries: Vec::new() };
        proof {
            assert(r@ =~= Seq::<(Seq<char>, CommandId)>::empty());
        }
        r
    }

    /// Registers one command under a name no other registration uses.
    pub fn register(&mut self, name: String, command: CommandId)
        requires
            old(self).wf(),
            !known(old(self)@, name@),
        ensures
            final(self)@ == old(self)@.push((name@, command)),
            final(self).wf(),
    {
        let ghost before = self@;
        self.entries.push(CommandEntry { name, command });
        proof {
            assert(self@ =~= before.push((name@, command)));
            assert forall|i: int, j: int| 0 <= i < j < self@.len() implies self@[i].0
                != self@[j].0 by {
                if j < before.len() {
                    assert(before[i].0 != before[j].0);
                } else {
                    assert(!(before[i].0 == name@));
                }
            }
        }
    }

    /// Finds the operation registered under `name`, or reports that none
    /// is: dispatch on an unregistered name fails, it never silently
    /// no-ops.
    pub fn lookup(&self, name: &String) -> (r: Option<CommandId>)
        ensures
            match r {
                Some(c) => registered(self@, name@, c),
                None => !known(self@, name@),
            },
    {
        let n = self.entries.len();
        let mut i: usize = 0;
        while i < n
            invariant
                n == self.entries.len(),
                i <= n,
                forall|j: int| 0 <= j < i ==> self@[j].0 != name@,
            decreases n - i,
        {
            if self.entries[i].name == *name {
                proof {
                    assert(self@[i as int] == (self@[i as int].0, self@[i as int].1));
                }
                return Some(self.entries[i].command);
            }
            i = i + 1;
        }
        None
    }

    /// The full bridge surface: the four commands, each under its fixed
    /// name, registered once.
    pub fn standard() -> (r: DispatchTable)
        ensures
            r.wf(),
            r@ =~= seq![
                ("get_system_info"@, CommandId::GetSystemInfo),
                ("read_local_file"@, CommandId::ReadLocalFile),
                ("write_local_file"@, CommandId::WriteLocalFile),
                ("list_directory"@, CommandId::ListDirectory),
            ],
    {
        proof {
            reveal_strlit("get_system_info");
            reveal_strlit("read_local_file");
            reveal_strlit("write_local_file");
            reveal_strlit("list_directory");
            assert("get_system_info"@[0] == 'g');
            assert("read_local_file"@[0] == 'r');
            assert("write_local_file"@[0] == 'w');
            assert("list_directory"@[0] == 'l');
        }
        let mut r = DispatchTable::empty();
        r.register("get_system_info".to_owned(), CommandId::GetSystemInfo);
        r.register("read_local_file".to_owned(), CommandId::ReadLocalFile);
        r.register("write_local_file".to_owned(), CommandId::WriteLocalFile);
        r.register("list_directory".to_owned(), CommandId::ListDirectory);
        r
    }
}

/// The one native operation a dispatched command asks its host to perform.
#[derive(Debug, Clone, PartialEq, Eq)]
pub enum NativeAction {
    /// Query the platform and architecture identifiers.
    QuerySystem,
    /// Read the whole file at `path`.
    ReadBytes { path: String },
    /// Write `contents` to the file at `path`.
    WriteBytes { path: String, contents: Vec<u8> },
    /// Read the entry names of the directory at `path`.
    ReadEntries { path: String },
}

/// What dispatch decides for one invocation: answer at once, or have the
/// host perform a native operation and then complete with its outcome.
#[derive(Debug, Clone, PartialEq, Eq)]
pub enum DispatchStep {
    Reply(InvocationResult),
    Perform(NativeAction),
}

/// The failure message for a command name no registration binds.
pub open spec fn unknown_command_text() -> Seq<char> {
    "unknown command"@
}

/// The failure message for arguments of the wrong number or kind.
pub open spec fn invalid_args_text() -> Seq<char> {
    "invalid arguments"@
}

/// The failure message for an empty path argument.
pub open spec fn empty_path_text() -> Seq<char> {
    "path must be a non-empty string"@
}

/// The step `r` answers at once with the failure message `msg`.
pub open spec fn replies_failure(r: DispatchStep, msg: Seq<char>) -> bool {
    r matches DispatchStep::Reply(InvocationResult::Failure(m)) && m@ == msg
}

/// The arguments are a single textual path.
pub open spec fn has_path_arg(args: Seq<ArgValue>) -> bool {
    args.len() == 1 && args[0] is Text
}

/// The path the single textual argument carries.
pub open spec fn path_arg(args: Seq<ArgValue>) -> Seq<char> {
    args[0]->Text_0@
}

/// The arguments are a textual path followed by binary contents.
pub open spec fn has_path_and_contents_args(args: Seq<ArgValue>) -> bool {
    args.len() == 2 && args[0] is Text && args[1] is Blob
}

/// The contents the binary argument carries.
pub open spec fn contents_arg(args: Seq<ArgValue>) -> Seq<u8> {
    args[1]->Blob_0@
}

/// What dispatch owes for a command that takes a single non-empty path and
/// performs the action `path_action` on it: the action on that path, or
/// the one fitting failure reply.
pub open spec fn path_step_ok(
    args: Seq<ArgValue>,
    r: DispatchStep,
    path_action: spec_fn(Seq<char>, DispatchStep) -> bool,
) -> bool {
    if has_path_arg(args) {
        if path_arg(args).len() > 0 {
            path_action(path_arg(args), r)
        } else {
            replies_failure(r, empty_path_text())
        }
    } else {
        replies_failure(r, invalid_args_text())
    }
}

/// The whole contract of dispatch: for the table `t` and the invocation
/// `inv`, the step `r` is the one the registered command prescribes — an
/// immediate deterministic failure for an unregistered name or ill-formed
/// arguments, otherwise the command's native action carrying the
/// invocation's own arguments.
pub open spec fn step_ok(t: Seq<(Seq<char>, CommandId)>, inv: Invocation, r: DispatchStep) -> bool {
    let args = inv.args@;
    &&& (!known(t, inv.command@) ==> replies_failure(r, unknown_command_text()))
    &&& (registered(t, inv.command@, CommandId::GetSystemInfo) ==> if args.len() == 0 {
        r == DispatchStep::Perform(NativeAction::QuerySystem)
    } else {
        replies_failure(r, invalid_args_text())
    })
    &&& (registered(t, inv.command@, CommandId::ReadLocalFile) ==> path_step_ok(
        args,
        r,
        |p: Seq<char>, s: DispatchStep|
            s matches DispatchStep::Perform(NativeAction::ReadBytes { path }) && path@ == p,
    ))
    &&& (registered(t, inv.command@, CommandId::WriteLocalFile) ==> if has_path_and_contents_args(
        args,
    ) {
        if path_arg(args).len() > 0 {
            r matches DispatchStep::Perform(NativeAction::WriteBytes { path, contents })
                && path@ == path_arg(args) && contents@ == contents_arg(args)
        } else {
            replies_failure(r, empty_path_text())
        }
    } else {
        replies_failure(r, invalid_args_text())
    })
    &&& (registered(t, inv.command@, CommandId::ListDirectory) ==> path_step_ok(
        args,
        r,
        |p: Seq<char>, s: DispatchStep|
            s matches DispatchStep::Perform(NativeAction::ReadEntries { path }) && path@ == p,
    ))
}

/// A name is bound to at most one operation in a well-formed table: the
/// uniqueness invariant of the registry.
pub proof fn lemma_lookup_deterministic(
    t: Seq<(Seq<char>, CommandId)>,
    name: Seq<char>,
    c1: CommandId,
    c2: CommandId,
)
    requires
        forall|i: int, j: int| 0 <= i < j < t.len() ==> t[i].0 != t[j].0,
        registered(t, name, c1),
        registered(t, name, c2),
    ensures
        c1 == c2,
{
    let i1 = choose|i: int| 0 <= i < t.len() && t[i] == (name, c1);
    let i2 = choose|i: int| 0 <= i < t.len() && t[i] == (name, c2);
    if i1 < i2 {
        assert(t[i1].0 != t[i2].0);
    } else if i2 < i1 {
        assert(t[i2].0 != t[i1].0);
    }
}

/// Extracts the single non-empty path argument, or the failure reply the
/// argument shape earns.
fn take_path_arg(inv: &Invocation) -> (r: Result<String, DispatchStep>)
    ensures
        match r {
            Ok(p) => has_path_arg(inv.args@) && p@ == path_arg(inv.args@) && p@.len() > 0,
            Err(s) => if has_path_arg(inv.args@) {
                path_arg(inv.args@).len() == 0 && replies_failure(s, empty_path_text())
            } else {
                replies_failure(s, invalid_args_text())
            },
        },
{
    if inv.args.len() != 1 {
        return Err(
            DispatchStep::Reply(InvocationResult::Failure("invalid arguments".to_owned())),
        );
    }
    match &inv.args[0] {
        ArgValue::Text(p) => {
            if p.as_str().is_empty() {
                Err(
                    DispatchStep::Reply(
                        InvocationResult::Failure("path must be a non-empty string".to_owned()),
                    ),
                )
            } else {
                Ok(p.clone())
            }
        },
        ArgValue::Blob(_) => {
            Err(DispatchStep::Reply(InvocationResult::Failure("invalid arguments".to_owned())))
        },
    }
}

/// Dispatches one invocation against the table: looks the command name up,
/// validates the arguments, and decides the step — an immediate failure
/// reply, or the native action for the host to perform.
pub fn dispatch(table: &DispatchTable, inv: &Invocation) -> (r: DispatchStep)
    requires
        table.wf(),
    ensures
        step_ok(table@, *inv, r),
{
    let looked_up = table.lookup(&inv.command);
    proof {
        if let Some(c) = looked_up {
            assert forall|c2: CommandId| registered(table@, inv.command@, c2) implies c2 == c by {
                lemma_lookup_deterministic(table@, inv.command@, c, c2);
            }
        }
    }
    match looked_up {
        None => DispatchStep::Reply(InvocationResult::Failure("unknown command".to_owned())),
        Some(CommandId::GetSystemInfo) => {
            if inv.args.len() == 0 {
                DispatchStep::Perform(NativeAction::QuerySystem)
            } else {
                DispatchStep::Reply(InvocationResult::Failure("invalid arguments".to_owned()))
            }
        },
        Some(CommandId::ReadLocalFile) => {
            match take_path_arg(inv) {
                Ok(path) => DispatchStep::Perform(NativeAction::ReadBytes { path }),
                Err(s) => s,
            }
        },
        Some(CommandId::WriteLocalFile) => dispatch_write(inv),
        Some(CommandId::ListDirectory) => {
            match take_path_arg(inv) {
                Ok(path) => DispatchStep::Perform(NativeAction::ReadEntries { path }),
                Err(s) => s,
            }
        },
    }
}

/// What the host hands back after performing a native action: the
/// operation's payload, or the platform's failure message.
#[derive(Debug, Clone, PartialEq, Eq)]
pub enum NativeOutcome {
    /// The platform and architecture identifiers; a platform reports
    /// non-empty identifiers.
    SystemQueried { platform: String, arch: String },
    /// The bytes the file held.
    BytesRead(Vec<u8>),
    /// The write went through; there is no payload.
    Written,
    /// Each directory entry's display name, `None` where the name has no
    /// display form.
    EntriesRead(Vec<Option<String>>),
    /// The platform call failed with this message. Querying the system
    /// never fails: it is pure computation.
    Error(String),
}

/// The outcomes a native action can end in: its own payload, or — for the
/// three operations that touch the filesystem — a platform failure.
pub open spec fn outcome_fits(action: NativeAction, outcome: NativeOutcome) -> bool {
    match action {
        NativeAction::QuerySystem => outcome matches NativeOutcome::SystemQueried {
            platform,
            arch,
        } && platform@.len() > 0 && arch@.len() > 0,
        NativeAction::ReadBytes { .. } => outcome is BytesRead || outcome is Error,
        NativeAction::WriteBytes { .. } => outcome is Written || outcome is Error,
        NativeAction::ReadEntries { .. } => outcome is EntriesRead || outcome is Error,
    }
}

/// Completes a dispatched invocation with the outcome of its native
/// action. A platform failure becomes a failure result carrying the
/// platform's own message, untouched and never a success; each payload
/// becomes the command's success result. Of the listing payload exactly
/// the display-decodable names are kept, so an undecodable name is
/// dropped without failing the call.
pub fn complete(action: &NativeAction, outcome: NativeOutcome) -> (r: InvocationResult)
    requires
        outcome_fits(*action, outcome),
    ensures
        outcome matches NativeOutcome::Error(m) ==> r matches InvocationResult::Failure(m2)
            && m2@ == m@,
        outcome matches NativeOutcome::SystemQueried { platform, arch } ==> r matches
            InvocationResult::Success(Payload::Info(si)) && si.platform@ == platform@
            && si.arch@ == arch@ && si.app_version@ == app_version_text() && si.wf(),
        outcome matches NativeOutcome::BytesRead(b) ==> r matches InvocationResult::Success(
            Payload::Bytes(b2),
        ) && b2@ == b@,
        outcome is Written ==> r == InvocationResult::Success(Payload::Ack),
        outcome matches NativeOutcome::EntriesRead(es) ==> r matches InvocationResult::Success(
            Payload::Names(names),
        ) && names.deep_view() == display_names(es.deep_view()),
{
    match outcome {
        NativeOutcome::SystemQueried { platform, arch } => {
            InvocationResult::Success(Payload::Info(SystemInfo::new(platform, arch)))
        },
        NativeOutcome::BytesRead(bytes) => InvocationResult::Success(Payload::Bytes(bytes)),
        NativeOutcome::Written => InvocationResult::Success(Payload::Ack),
        NativeOutcome::EntriesRead(entries) => {
            InvocationResult::Success(Payload::Names(collect_display_names(&entries)))
        },
        NativeOutcome::Error(message) => InvocationResult::Failure(message),
    }
}

/// The write command's own argument validation: a non-empty path and the
/// contents to write.
fn dispatch_write(inv: &Invocation) -> (r: DispatchStep)
    ensures
        if has_path_and_contents_args(inv.args@) {
            if path_arg(inv.args@).len() > 0 {
                r matches DispatchStep::Perform(NativeAction::WriteBytes { path, contents })
                    && path@ == path_arg(inv.args@) && contents@ == contents_arg(inv.args@)
            } else {
                replies_failure(r, empty_path_text())
            }
        } else {
            replies_failure(r, invalid_args_text())
        },
{
    if inv.args.len() != 2 {
        return DispatchStep::Reply(InvocationResult::Failure("invalid arguments".to_owned()));
    }
    let path = match &inv.args[0] {
        ArgValue::Text(p) => p,
        ArgValue::Blob(_) => {
            return DispatchStep::Reply(
                InvocationResult::Failure("invalid arguments".to_owned()),
            );
        },
    };
    let contents = match &inv.args[1] {
        ArgValue::Blob(b) => b,
        ArgValue::Text(_) => {
            return DispatchStep::Reply(
                InvocationResult::Failure("invalid arguments".to_owned()),
            );
        },
    };
    if path.as_str().is_empty() {
        return DispatchStep::Reply(
            InvocationResult::Failure("path must be a non-empty string".to_owned()),
        );
    }
    DispatchStep::Perform(
        NativeAction::WriteBytes { path: path.clone(), contents: contents.clone() },
    )
}

} // verus!
