//! From a `command/exec` request to a command that can be started: the checks on
//! its parameters, the approval of additional permissions and the settings it
//! runs with.

use crate::approval::{ApprovalDecision, ApprovalResponse};
use crate::environment::{apply_overrides, environment, overridden, requested};
use crate::network::NetworkApprovalContext;
use crate::permissions::{
    asked, law_permissions_are_asked_for_in_full, refusal, reply_view, ApprovalRequest,
    PermissionsApprovalBroker, PermissionsPayload,
};
use crate::process::{
    size_error, terminal_size, CommandExecTerminalSize, StartProcessParams, TerminalSize,
};
use crate::protocol::{
    clone_opt_text, clone_texts, error_of, has_member, internal_error, internal_error_view,
    invalid_params, invalid_params_error, invalid_request, invalid_request_error, texts,
    ConnectionId, ErrorView, FieldValueView, JSONRPCErrorError, MessageView, ObjectView,
};
use crate::text::{joined, signed_decimal, signed_decimal_text};
use std::path::PathBuf;
use vstd::prelude::*;
use vstd::string::*;

verus! {

/// Parameters of `command/exec`. `Policy` is the sandbox policy of a request.
#[derive(Debug, Clone, PartialEq, Eq)]
pub struct CommandExecParams<Policy> {
    /// The program and its arguments.
    pub command: Vec<String>,
    pub process_id: Option<String>,
    pub tty: bool,
    pub stream_stdin: bool,
    pub stream_stdout_stderr: bool,
    pub output_bytes_cap: Option<usize>,
    pub disable_output_cap: bool,
    pub disable_timeout: bool,
    pub timeout_ms: Option<i64>,
    /// The working directory; a relative one starts from that of the service.
    pub cwd: Option<PathBuf>,
    /// The changes to the environment: a value sets a variable, none removes it.
    pub env: Option<Vec<(String, Option<String>)>>,
    pub size: Option<CommandExecTerminalSize>,
    pub sandbox_policy: Option<Policy>,
    pub permission_profile: Option<String>,
}

/// Whether a directory is the one that a request asks for: the requested path
/// joined to the directory of the service, or else that directory itself.
pub open spec fn resolves<Directory, F: Fn(&PathBuf) -> Directory>(
    requested_path: Option<PathBuf>,
    service_directory: Directory,
    join: F,
    directory: Directory,
) -> bool {
    match requested_path {
        Some(path) => call_ensures(join, (&path,), directory),
        None => directory == service_directory,
    }
}

impl<Policy> CommandExecParams<Policy> {
    /// The working directory of the command: the requested one, seen from that of
    /// the service, or else that of the service itself.
    pub fn working_directory<Directory, F: Fn(&PathBuf) -> Directory>(
        &self,
        service_directory: Directory,
        join: F,
    ) -> (directory: Directory)
        requires
            forall|path: &PathBuf| #[trigger] call_requires(join, (path,)),
        ensures
            resolves(self.cwd, service_directory, join, directory),
    {
        match &self.cwd {
            Some(path) => join(path),
            None => service_directory,
        }
    }
}

/// Additional permissions in their normalized form.
#[derive(Debug, Clone, PartialEq, Eq)]
pub struct NormalizedPermissions<N> {
    pub profile: N,
    /// Whether nothing is asked for after all.
    pub is_empty: bool,
}

/// Parameters of `command/exec` with the additional permissions they ask for, or
/// why those are invalid.
#[derive(Debug, PartialEq, Eq)]
pub struct SandboxCommandExecParams<Policy, N> {
    pub command_exec: CommandExecParams<Policy>,
    pub additional_permissions: Option<Result<NormalizedPermissions<N>, String>>,
}

/// What is wrong with the parameters in themselves: the first of these that
/// holds.
pub open spec fn params_error<Policy>(params: CommandExecParams<Policy>) -> Option<ErrorView> {
    if params.command@.len() == 0 {
        Some(invalid_request_error("command must not be empty"@))
    } else if params.sandbox_policy is Some && params.permission_profile is Some {
        Some(
            invalid_request_error(
                "`permissionProfile` cannot be combined with `sandboxPolicy`"@,
            ),
        )
    } else if params.permission_profile is Some {
        Some(
            invalid_params_error(
                "named permission profiles are unavailable; use sandboxPolicy or the startup profile"@,
            ),
        )
    } else if params.size is Some && !params.tty {
        Some(invalid_params_error("command/exec size requires tty: true"@))
    } else if params.disable_output_cap && params.output_bytes_cap is Some {
        Some(
            invalid_params_error(
                "command/exec cannot set both outputBytesCap and disableOutputCap"@,
            ),
        )
    } else if params.disable_timeout && params.timeout_ms is Some {
        Some(
            invalid_params_error("command/exec cannot set both timeoutMs and disableTimeout"@),
        )
    } else {
        None
    }
}

/// What is wrong with a request before anything is asked or run.
pub open spec fn request_error<Policy, N>(params: SandboxCommandExecParams<Policy, N>) -> Option<
    ErrorView,
> {
    match params_error(params.command_exec) {
        Some(error) => Some(error),
        None => match params.additional_permissions {
            Some(Err(reason)) => Some(
                invalid_params_error("invalid additionalPermissions: "@ + reason@),
            ),
            _ => None,
        },
    }
}

/// The permissions that have to be approved before the command may start.
pub open spec fn permissions_to_approve<N>(
    additional: Option<Result<NormalizedPermissions<N>, String>>,
) -> Option<N> {
    match additional {
        Some(Ok(normalized)) if !normalized.is_empty => Some(normalized.profile),
        _ => None,
    }
}

fn check_params<Policy>(params: &CommandExecParams<Policy>) -> (result: Result<
    (),
    JSONRPCErrorError,
>)
    ensures
        error_of(result) == params_error(*params),
{
    if params.command.len() == 0 {
        return Err(invalid_request("command must not be empty".to_owned()));
    }
    if params.sandbox_policy.is_some() && params.permission_profile.is_some() {
        return Err(
            invalid_request(
                "`permissionProfile` cannot be combined with `sandboxPolicy`".to_owned(),
            ),
        );
    }
    if params.permission_profile.is_some() {
        return Err(
            invalid_params(
                "named permission profiles are unavailable; use sandboxPolicy or the startup profile".to_owned(),
            ),
        );
    }
    if params.size.is_some() && !params.tty {
        return Err(invalid_params("command/exec size requires tty: true".to_owned()));
    }
    if params.disable_output_cap && params.output_bytes_cap.is_some() {
        return Err(
            invalid_params(
                "command/exec cannot set both outputBytesCap and disableOutputCap".to_owned(),
            ),
        );
    }
    if params.disable_timeout && params.timeout_ms.is_some() {
        return Err(
            invalid_params(
                "command/exec cannot set both timeoutMs and disableTimeout".to_owned(),
            ),
        );
    }
    Ok(())
}

/// A command whose parameters have passed the checks and whose additional
/// permissions, if any, have been approved.
pub struct ReadyCommand<Policy, N, D> {
    connection_id: ConnectionId,
    params: CommandExecParams<Policy>,
    directory: D,
    additional_permissions: Option<N>,
}

/// A command that waits for its additional permissions to be approved.
pub struct PendingCommand<Policy, N, D> {
    connection_id: ConnectionId,
    params: CommandExecParams<Policy>,
    directory: D,
    additional_permissions: N,
}

/// Where a request stands after its parameters have been checked.
pub enum PrepareStep<Policy, N, D> {
    Ready(ReadyCommand<Policy, N, D>),
    NeedsApproval(PendingCommand<Policy, N, D>),
}

/// Whether an approval request shows this directory and these permissions, as the
/// conversions give them; what fails first is the reason why it cannot.
pub open spec fn shows<
    N,
    D,
    F: Fn(&D) -> Result<String, String>,
    G: Fn(&N) -> Result<String, String>,
>(
    payload: Result<PermissionsPayload, String>,
    directory: D,
    profile: N,
    cwd_text: F,
    permissions_text: G,
) -> bool {
    match payload {
        Ok(parts) => {
            &&& call_ensures(cwd_text, (&directory,), Ok(parts.cwd))
            &&& call_ensures(permissions_text, (&profile,), Ok(parts.additional_permissions))
        },
        Err(reason) => {
            ||| call_ensures(cwd_text, (&directory,), Err(reason))
            ||| call_ensures(permissions_text, (&profile,), Err(reason)) && exists|cwd: String|
                #[trigger] call_ensures(cwd_text, (&directory,), Ok(cwd))
        },
    }
}

/// Checks the parameters of a `command/exec` request and resolves its working
/// directory: the requested one, joined to that of the service, or else that of
/// the service itself.
pub fn prepare_command_exec<Policy, N, D, F: Fn(&PathBuf) -> D>(
    connection_id: ConnectionId,
    params: SandboxCommandExecParams<Policy, N>,
    service_directory: D,
    join: F,
) -> (result: Result<PrepareStep<Policy, N, D>, JSONRPCErrorError>)
    requires
        forall|path: &PathBuf| #[trigger] call_requires(join, (path,)),
    ensures
        error_of(result) == request_error(params),
        match permissions_to_approve(params.additional_permissions) {
            Some(profile) => result matches Ok(step) ==> (step matches PrepareStep::NeedsApproval(
                pending,
            ) && pending.connection() == connection_id && pending.request() == params.command_exec
                && pending.permissions() == profile && resolves(
                params.command_exec.cwd,
                service_directory,
                join,
                pending.directory(),
            )),
            None => result matches Ok(step) ==> (step matches PrepareStep::Ready(ready)
                && ready.connection() == connection_id && ready.request() == params.command_exec
                && ready.granted() is None && resolves(
                params.command_exec.cwd,
                service_directory,
                join,
                ready.directory(),
            )),
        },
        is_prepared(result, connection_id, params, service_directory, join),
{
    check_params(&params.command_exec)?;
    let additional_permissions = match params.additional_permissions {
        Some(Err(reason)) => {
            return Err(
                invalid_params(joined("invalid additionalPermissions: ", reason.as_str())),
            );
        },
        Some(Ok(normalized)) => {
            if normalized.is_empty {
                None
            } else {
                Some(normalized.profile)
            }
        },
        None => None,
    };
    let directory = params.command_exec.working_directory(service_directory, join);
    match additional_permissions {
        Some(profile) => Ok(
            PrepareStep::NeedsApproval(
                PendingCommand {
                    connection_id,
                    params: params.command_exec,
                    directory,
                    additional_permissions: profile,
                },
            ),
        ),
        None => Ok(
            PrepareStep::Ready(
                ReadyCommand {
                    connection_id,
                    params: params.command_exec,
                    directory,
                    additional_permissions: None,
                },
            ),
        ),
    }
}

impl<Policy, N, D> PendingCommand<Policy, N, D> {
    /// The connection of the request.
    pub closed spec fn connection(self) -> ConnectionId {
        self.connection_id
    }

    /// The parameters of the request.
    pub closed spec fn request(self) -> CommandExecParams<Policy> {
        self.params
    }

    /// The permissions that have to be approved.
    pub closed spec fn permissions(self) -> N {
        self.additional_permissions
    }

    /// The working directory of the command.
    pub closed spec fn directory(self) -> D {
        self.directory
    }

    /// What the approval request shows of the command: its working directory and
    /// the permissions that are granted if it is accepted, each in the form that a
    /// conversion gives.
    pub fn approval_payload<
        F: Fn(&D) -> Result<String, String>,
        G: Fn(&N) -> Result<String, String>,
    >(&self, cwd_text: F, permissions_text: G) -> (payload: Result<PermissionsPayload, String>)
        requires
            forall|directory: &D| #[trigger] call_requires(cwd_text, (directory,)),
            forall|profile: &N| #[trigger] call_requires(permissions_text, (profile,)),
        ensures
            shows(payload, self.directory(), self.permissions(), cwd_text, permissions_text),
    {
        let cwd = match cwd_text(&self.directory) {
            Ok(text) => text,
            Err(reason) => {
                return Err(reason);
            },
        };
        match permissions_text(&self.additional_permissions) {
            Ok(additional_permissions) => {
                let parts = PermissionsPayload { cwd, additional_permissions };
                Ok(parts)
            },
            Err(reason) => {
                assert(call_ensures(cwd_text, (&self.directory,), Ok(cwd)));
                Err(reason)
            },
        }
    }

    /// Asks the client that sent the request to approve its permissions, which are
    /// shown with the working directory of the command.
    pub fn request_approval<
        T,
        F: Fn(&D) -> Result<String, String>,
        G: Fn(&N) -> Result<String, String>,
    >(
        &self,
        broker: &mut PermissionsApprovalBroker<T>,
        cwd_text: F,
        permissions_text: G,
        response_tx: T,
    ) -> (result: Result<ApprovalRequest, JSONRPCErrorError>)
        requires
            forall|directory: &D| #[trigger] call_requires(cwd_text, (directory,)),
            forall|profile: &N| #[trigger] call_requires(permissions_text, (profile,)),
        ensures
            final(broker).wf(),
            exists|payload: Result<PermissionsPayload, String>| #[trigger]
                shows(
                    payload,
                    self.directory(),
                    self.permissions(),
                    cwd_text,
                    permissions_text,
                ) && asked(
                    *old(broker),
                    *final(broker),
                    self.connection(),
                    self.request().process_id,
                    self.request().command@,
                    payload,
                    response_tx,
                    result,
                ),
            asks_for(
                *self,
                *old(broker),
                cwd_text,
                permissions_text,
                response_tx,
                result,
                *final(broker),
            ),
    {
        let payload = self.approval_payload(cwd_text, permissions_text);
        let ghost shown = payload;
        let result = broker.request_approval(
            self.connection_id,
            clone_opt_text(&self.params.process_id),
            clone_texts(&self.params.command),
            payload,
            response_tx,
        );
        assert(shows(
            shown,
            self.directory(),
            self.permissions(),
            cwd_text,
            permissions_text,
        ));
        result
    }

    /// Ends the wait for the approval. The command is ready only if the request
    /// was plainly accepted.
    pub fn finish_approval<T>(
        self,
        broker: &mut PermissionsApprovalBroker<T>,
        request_id: &String,
        reply: Option<ApprovalResponse>,
    ) -> (result: Result<ReadyCommand<Policy, N, D>, JSONRPCErrorError>)
        ensures
            final(broker).wf(),
            final(broker).next_number() == old(broker).next_number(),
            final(broker).pending() == old(broker).pending().remove(request_id@),
            error_of(result) == refusal(reply_view(reply)),
            result matches Ok(ready) ==> ready.connection() == self.connection()
                && ready.request() == self.request() && ready.directory() == self.directory()
                && ready.granted() == Some(self.permissions()),
            is_approved(self, reply, result),
    {
        broker.finish_approval(request_id, reply)?;
        Ok(
            ReadyCommand {
                connection_id: self.connection_id,
                params: self.params,
                directory: self.directory,
                additional_permissions: Some(self.additional_permissions),
            },
        )
    }
}

/// When the time of a command comes to an end.
#[derive(Debug, Clone, Copy, PartialEq, Eq, Structural)]
pub enum ExecExpiration {
    /// After this many milliseconds, or after the default time.
    Timeout(Option<u64>),
    /// Never by itself.
    Never,
}

/// How the output of a command is captured.
#[derive(Debug, Clone, Copy, PartialEq, Eq, Structural)]
pub enum ExecCapturePolicy {
    ShellTool,
    FullBuffer,
}

/// The settings that a command runs with.
#[derive(Debug, Clone, PartialEq, Eq)]
pub struct ExecSettings {
    pub env: Vec<(String, String)>,
    pub expiration: ExecExpiration,
    pub output_bytes_cap: Option<usize>,
    pub capture_policy: ExecCapturePolicy,
}

/// What is wrong with the timeout of a request.
pub open spec fn timeout_error(timeout_ms: Option<i64>) -> Option<ErrorView> {
    match timeout_ms {
        Some(timeout) if timeout < 0 => Some(
            invalid_params_error(
                "command/exec timeoutMs must be non-negative, got "@ + signed_decimal(
                    timeout as int,
                ),
            ),
        ),
        _ => None,
    }
}

/// When the time of a request's command comes to an end.
pub open spec fn expiration_of<Policy>(params: CommandExecParams<Policy>) -> ExecExpiration {
    if params.disable_timeout {
        ExecExpiration::Never
    } else {
        match params.timeout_ms {
            Some(timeout) => ExecExpiration::Timeout(Some(timeout as u64)),
            None => ExecExpiration::Timeout(None),
        }
    }
}

/// The cap on each output stream of a request's command.
pub open spec fn cap_of<Policy>(params: CommandExecParams<Policy>, default_cap: usize) -> Option<
    usize,
> {
    if params.disable_output_cap {
        None
    } else {
        match params.output_bytes_cap {
            Some(cap) => Some(cap),
            None => Some(default_cap),
        }
    }
}

/// How the output of a request's command is captured.
pub open spec fn capture_policy_of<Policy>(params: CommandExecParams<Policy>) -> ExecCapturePolicy {
    if params.disable_output_cap {
        ExecCapturePolicy::FullBuffer
    } else {
        ExecCapturePolicy::ShellTool
    }
}

impl<Policy, N, D> ReadyCommand<Policy, N, D> {
    /// The connection of the request.
    pub closed spec fn connection(self) -> ConnectionId {
        self.connection_id
    }

    /// The parameters of the request.
    pub closed spec fn request(self) -> CommandExecParams<Policy> {
        self.params
    }

    /// The working directory of the command.
    pub closed spec fn directory(self) -> D {
        self.directory
    }

    /// The additional permissions that were granted.
    pub closed spec fn granted(self) -> Option<N> {
        self.additional_permissions
    }

    /// Fixes the settings that the command runs with: the given environment with
    /// the requested changes, its time and the cap on its output.
    pub fn settle(self, env: Vec<(String, String)>, default_output_bytes_cap: usize) -> (result:
        Result<SettledCommand<Policy, N, D>, JSONRPCErrorError>)
        ensures
            error_of(result) == timeout_error(self.request().timeout_ms),
            result matches Ok(settled) ==> {
                &&& settled.connection() == self.connection()
                &&& settled.granted() == self.granted()
                &&& settled.directory() == self.directory()
                &&& settled.request() == (CommandExecParams { env: None, ..self.request() })
                &&& environment(settled.settings().env@) == overridden(
                    environment(env@),
                    requested(self.request().env),
                )
                &&& forall|i: int, j: int|
                    0 <= i < j < settled.settings().env@.len() ==> (
                    #[trigger] settled.settings().env@[i]).0@ != (
                    #[trigger] settled.settings().env@[j]).0@
                &&& settled.settings().expiration == expiration_of(self.request())
                &&& settled.settings().output_bytes_cap == cap_of(
                    self.request(),
                    default_output_bytes_cap,
                )
                &&& settled.settings().capture_policy == capture_policy_of(self.request())
            },
            settles(self, env@, default_output_bytes_cap, result),
    {
        let mut params = self.params;
        let mut overrides: Option<Vec<(String, Option<String>)>> = None;
        std::mem::swap(&mut params.env, &mut overrides);
        let env = apply_overrides(env, overrides);
        let timeout_ms: Option<u64> = match params.timeout_ms {
            Some(timeout_ms) => {
                if timeout_ms < 0 {
                    let number = signed_decimal_text(timeout_ms);
                    return Err(
                        invalid_params(
                            joined(
                                "command/exec timeoutMs must be non-negative, got ",
                                number.as_str(),
                            ),
                        ),
                    );
                }
                Some(timeout_ms as u64)
            },
            None => None,
        };
        let expiration = if params.disable_timeout {
            ExecExpiration::Never
        } else {
            ExecExpiration::Timeout(timeout_ms)
        };
        let output_bytes_cap: Option<usize> = if params.disable_output_cap {
            None
        } else {
            match params.output_bytes_cap {
                Some(cap) => Some(cap),
                None => Some(default_output_bytes_cap),
            }
        };
        let capture_policy = if params.disable_output_cap {
            ExecCapturePolicy::FullBuffer
        } else {
            ExecCapturePolicy::ShellTool
        };
        Ok(
            SettledCommand {
                connection_id: self.connection_id,
                params,
                directory: self.directory,
                additional_permissions: self.additional_permissions,
                settings: ExecSettings { env, expiration, output_bytes_cap, capture_policy },
            },
        )
    }
}

/// A command with the settings it runs with.
pub struct SettledCommand<Policy, N, D> {
    connection_id: ConnectionId,
    params: CommandExecParams<Policy>,
    directory: D,
    additional_permissions: Option<N>,
    settings: ExecSettings,
}

/// A command as the sandbox runs it.
pub struct SandboxedCommand<C> {
    /// The program and its arguments.
    pub command: Vec<String>,
    /// The working directory, or why it is not a usable path.
    pub cwd: Result<C, String>,
}

/// What is wrong with a command that is otherwise ready to start: the sandbox
/// could not be made, or its terminal size is invalid.
pub open spec fn finish_error<Policy, C>(
    params: CommandExecParams<Policy>,
    sandboxed: Result<SandboxedCommand<C>, String>,
) -> Option<ErrorView> {
    match sandboxed {
        Err(reason) => Some(internal_error_view("failed to prepare sandbox: "@ + reason@)),
        Ok(_) => match params.size {
            Some(size) => size_error(size),
            None => None,
        },
    }
}

/// The checked size of the terminal that a request asks for.
pub open spec fn requested_size(size: Option<CommandExecTerminalSize>) -> Option<TerminalSize> {
    match size {
        Some(asked_for) => Some(TerminalSize { rows: asked_for.rows, cols: asked_for.cols }),
        None => None,
    }
}

impl<Policy, N, D> SettledCommand<Policy, N, D> {
    /// The connection of the request.
    pub closed spec fn connection(self) -> ConnectionId {
        self.connection_id
    }

    /// The parameters of the request.
    pub closed spec fn request(self) -> CommandExecParams<Policy> {
        self.params
    }

    /// The working directory of the command.
    pub closed spec fn directory(self) -> D {
        self.directory
    }

    /// The additional permissions that were granted.
    pub closed spec fn granted(self) -> Option<N> {
        self.additional_permissions
    }

    /// The settings that the command runs with.
    pub closed spec fn settings(self) -> ExecSettings {
        self.settings
    }

    /// The program and its arguments.
    pub fn command(&self) -> (command: &Vec<String>)
        ensures
            *command == self.request().command,
    {
        &self.params.command
    }

    /// The working directory of the command.
    pub fn working_directory(&self) -> (directory: &D)
        ensures
            *directory == self.directory(),
    {
        &self.directory
    }

    /// The settings that the command runs with.
    pub fn exec_settings(&self) -> (settings: &ExecSettings)
        ensures
            *settings == self.settings(),
    {
        &self.settings
    }

    /// The profile that the command runs under before its additional permissions:
    /// the one made from the request's sandbox policy, or else that of the service.
    pub fn base_profile<Profile, F: Fn(&Policy) -> Profile>(
        &self,
        startup_profile: Profile,
        from_policy: F,
    ) -> (profile: Profile)
        requires
            forall|policy: &Policy| #[trigger] call_requires(from_policy, (policy,)),
        ensures
            match self.request().sandbox_policy {
                Some(policy) => call_ensures(from_policy, (&policy,), profile),
                None => profile == startup_profile,
            },
            is_base_profile(
                self.request().sandbox_policy,
                startup_profile,
                from_policy,
                profile,
            ),
    {
        match &self.params.sandbox_policy {
            Some(policy) => from_policy(policy),
            None => startup_profile,
        }
    }

    /// The additional permissions that were granted.
    pub fn additional_permissions(&self) -> (profile: Option<&N>)
        ensures
            profile is Some <==> self.granted() is Some,
            profile matches Some(own) ==> self.granted() == Some(*own),
    {
        match &self.additional_permissions {
            Some(profile) => Some(profile),
            None => None,
        }
    }

    /// What a network approval request of the command says about it; its working
    /// directory in the form that a conversion gives.
    pub fn network_context<F: Fn(&D) -> Result<String, String>>(&self, cwd_text: F) -> (context:
        NetworkApprovalContext)
        requires
            forall|directory: &D| #[trigger] call_requires(cwd_text, (directory,)),
        ensures
            context.connection_id == self.connection(),
            context.process_id == self.request().process_id,
            context.command@ == self.request().command@,
            call_ensures(cwd_text, (&self.directory(),), context.cwd),
            speaks_for(context, *self, cwd_text),
    {
        NetworkApprovalContext {
            connection_id: self.connection_id,
            process_id: clone_opt_text(&self.params.process_id),
            command: clone_texts(&self.params.command),
            cwd: cwd_text(&self.directory),
        }
    }

    /// Puts together what is started; `sandboxed` is the command as the sandbox
    /// runs it, or why there is no sandbox.
    pub fn finish<C>(self, sandboxed: Result<SandboxedCommand<C>, String>) -> (result: Result<
        StartProcessParams<C>,
        JSONRPCErrorError,
    >)
        ensures
            error_of(result) == finish_error(self.request(), sandboxed),
            result matches Ok(start) ==> {
                &&& start.connection_id == self.connection()
                &&& start.process_id == self.request().process_id
                &&& start.command == sandboxed->Ok_0.command
                &&& start.cwd == sandboxed->Ok_0.cwd
                &&& start.tty == self.request().tty
                &&& start.stream_stdin == self.request().stream_stdin
                &&& start.stream_stdout_stderr == self.request().stream_stdout_stderr
                &&& start.output_bytes_cap == self.settings().output_bytes_cap
                &&& start.size == requested_size(self.request().size)
            },
            finishes(self, sandboxed, result),
    {
        let sandboxed = match sandboxed {
            Ok(command) => command,
            Err(reason) => {
                return Err(
                    internal_error(joined("failed to prepare sandbox: ", reason.as_str())),
                );
            },
        };
        let size = match self.params.size {
            Some(size) => Some(terminal_size(size)?),
            None => None,
        };
        Ok(
            StartProcessParams {
                connection_id: self.connection_id,
                process_id: self.params.process_id,
                command: sandboxed.command,
                cwd: sandboxed.cwd,
                tty: self.params.tty,
                stream_stdin: self.params.stream_stdin,
                stream_stdout_stderr: self.params.stream_stdout_stderr,
                output_bytes_cap: self.settings.output_bytes_cap,
                size,
            },
        )
    }
}

/// A request names no permission profile if it gets anywhere: the service has no
/// named profiles.
pub proof fn law_named_profiles_are_refused<Policy, N>(
    params: SandboxCommandExecParams<Policy, N>,
)
    requires
        params.command_exec.permission_profile is Some,
    ensures
        request_error(params) is Some,
{
}

/// A command that asks for permissions gets them only by a plain acceptance: no
/// answer but that leaves its request without an error.
pub proof fn law_permissions_need_an_acceptance(reply: Option<ApprovalResponse>)
    ensures
        refusal(reply_view(reply)) is None <==> (reply matches Some(Ok(decision))
            && decision is Accept),
{
}

/// The output of a command is without a cap, and its time without an end, exactly
/// where its request says so.
pub proof fn law_limits_hold_unless_disabled<Policy>(
    params: CommandExecParams<Policy>,
    default_cap: usize,
)
    ensures
        cap_of(params, default_cap) is None <==> params.disable_output_cap,
        expiration_of(params) == ExecExpiration::Never <==> params.disable_timeout,
{
}

/// Whether this is what the checks on a request lead to.
pub open spec fn is_prepared<Policy, N, D, F: Fn(&PathBuf) -> D>(
    result: Result<PrepareStep<Policy, N, D>, JSONRPCErrorError>,
    connection_id: ConnectionId,
    params: SandboxCommandExecParams<Policy, N>,
    service_directory: D,
    join: F,
) -> bool {
    let cwd = params.command_exec.cwd;
    let permissions = permissions_to_approve(params.additional_permissions);
    match result {
        Err(error) => request_error(params) == Some(error@),
        Ok(PrepareStep::NeedsApproval(pending)) => {
            &&& request_error(params) is None
            &&& permissions == Some(pending.permissions())
            &&& pending.connection() == connection_id
            &&& pending.request() == params.command_exec
            &&& resolves(cwd, service_directory, join, pending.directory())
        },
        Ok(PrepareStep::Ready(ready)) => {
            &&& request_error(params) is None
            &&& permissions is None
            &&& ready.granted() is None
            &&& ready.connection() == connection_id
            &&& ready.request() == params.command_exec
            &&& resolves(cwd, service_directory, join, ready.directory())
        },
    }
}

/// Whether this is what the end of the wait for an approval leads to.
pub open spec fn is_approved<Policy, N, D>(
    pending: PendingCommand<Policy, N, D>,
    reply: Option<ApprovalResponse>,
    result: Result<ReadyCommand<Policy, N, D>, JSONRPCErrorError>,
) -> bool {
    &&& error_of(result) == refusal(reply_view(reply))
    &&& result matches Ok(ready) ==> {
        &&& ready.connection() == pending.connection()
        &&& ready.request() == pending.request()
        &&& ready.directory() == pending.directory()
        &&& ready.granted() == Some(pending.permissions())
    }
}

/// Whether this is what the settings of a ready command come to.
pub open spec fn settles<Policy, N, D>(
    ready: ReadyCommand<Policy, N, D>,
    env: Seq<(String, String)>,
    default_cap: usize,
    result: Result<SettledCommand<Policy, N, D>, JSONRPCErrorError>,
) -> bool {
    &&& error_of(result) == timeout_error(ready.request().timeout_ms)
    &&& result matches Ok(settled) ==> {
        &&& settled.connection() == ready.connection()
        &&& settled.granted() == ready.granted()
        &&& settled.directory() == ready.directory()
        &&& settled.request() == (CommandExecParams { env: None, ..ready.request() })
        &&& environment(settled.settings().env@) == overridden(
            environment(env),
            requested(ready.request().env),
        )
        &&& settled.settings().expiration == expiration_of(ready.request())
        &&& settled.settings().output_bytes_cap == cap_of(ready.request(), default_cap)
        &&& settled.settings().capture_policy == capture_policy_of(ready.request())
    }
}

/// Whether a profile is the one that a command runs under before its additional
/// permissions.
pub open spec fn is_base_profile<Policy, Profile, F: Fn(&Policy) -> Profile>(
    sandbox_policy: Option<Policy>,
    startup_profile: Profile,
    from_policy: F,
    profile: Profile,
) -> bool {
    match sandbox_policy {
        Some(policy) => call_ensures(from_policy, (&policy,), profile),
        None => profile == startup_profile,
    }
}

/// Whether network requests in this context are made for this command.
pub open spec fn speaks_for<Policy, N, D, F: Fn(&D) -> Result<String, String>>(
    context: NetworkApprovalContext,
    settled: SettledCommand<Policy, N, D>,
    cwd_text: F,
) -> bool {
    &&& context.connection_id == settled.connection()
    &&& context.process_id == settled.request().process_id
    &&& context.command@ == settled.request().command@
    &&& call_ensures(cwd_text, (&settled.directory(),), context.cwd)
}

/// Whether this is what is started for a settled command.
pub open spec fn finishes<Policy, N, D, C>(
    settled: SettledCommand<Policy, N, D>,
    sandboxed: Result<SandboxedCommand<C>, String>,
    result: Result<StartProcessParams<C>, JSONRPCErrorError>,
) -> bool {
    &&& error_of(result) == finish_error(settled.request(), sandboxed)
    &&& result matches Ok(start) ==> (sandboxed matches Ok(made) && {
        &&& start.connection_id == settled.connection()
        &&& start.process_id == settled.request().process_id
        &&& start.command == made.command
        &&& start.cwd == made.cwd
        &&& start.tty == settled.request().tty
        &&& start.stream_stdin == settled.request().stream_stdin
        &&& start.stream_stdout_stderr == settled.request().stream_stdout_stderr
        &&& start.output_bytes_cap == settled.settings().output_bytes_cap
        &&& start.size == requested_size(settled.request().size)
    })
}

/// A request is refused exactly if one of these faults is found in it, and the
/// client is told the first: it has no program, it names a permission profile, its
/// terminal size comes without a terminal, its output cap or its timeout is given
/// and disabled at once, or its additional permissions are invalid.
pub proof fn law_requests_are_refused_for_their_first_fault<Policy, N>(
    params: SandboxCommandExecParams<Policy, N>,
)
    ensures
        ({
            let exec = params.command_exec;
            let told = request_error(params);
            let runs_nothing = exec.command@.len() == 0;
            let names_profile = exec.permission_profile is Some;
            let stray_size = exec.size is Some && !exec.tty;
            let two_caps = exec.disable_output_cap && exec.output_bytes_cap is Some;
            let two_times = exec.disable_timeout && exec.timeout_ms is Some;
            let bad_permissions = params.additional_permissions matches Some(result) && result
                is Err;
            let plain = !runs_nothing && !names_profile;
            &&& told is None <==> plain && !stray_size && !two_caps && !two_times
                && !bad_permissions
            &&& runs_nothing ==> (told matches Some(error) && error.code == -32600 && error.message
                == "command must not be empty"@)
            &&& !runs_nothing && names_profile && exec.sandbox_policy is Some ==> (
            told matches Some(error) && error.code == -32600 && error.message
                == "`permissionProfile` cannot be combined with `sandboxPolicy`"@)
            &&& !runs_nothing && names_profile && exec.sandbox_policy is None ==> (
            told matches Some(error) && error.code == -32602 && error.message
                == "named permission profiles are unavailable; use sandboxPolicy or the startup profile"@)
            &&& plain && stray_size ==> (told matches Some(error) && error.code == -32602
                && error.message == "command/exec size requires tty: true"@)
            &&& plain && !stray_size && two_caps ==> (told matches Some(error) && error.code
                == -32602 && error.message
                == "command/exec cannot set both outputBytesCap and disableOutputCap"@)
            &&& plain && !stray_size && !two_caps && two_times ==> (told matches Some(error)
                && error.code == -32602 && error.message
                == "command/exec cannot set both timeoutMs and disableTimeout"@)
            &&& plain && !stray_size && !two_caps && !two_times ==> (
            params.additional_permissions matches Some(Err(reason)) ==> (told matches Some(error)
                && error.code == -32602 && error.message == "invalid additionalPermissions: "@
                + reason@))
        }),
{
}

/// A request that asks for permissions waits for their approval, and for exactly
/// those; one that asks for none is ready without any. Either way it is the request
/// of its connection, unchanged, in the directory that it asks for or else in that
/// of the service.
pub proof fn law_requests_wait_where_they_ask_for_permissions<
    Policy,
    N,
    D,
    F: Fn(&PathBuf) -> D,
>(
    step: PrepareStep<Policy, N, D>,
    connection_id: ConnectionId,
    params: SandboxCommandExecParams<Policy, N>,
    service_directory: D,
    join: F,
)
    requires
        is_prepared(
            Ok::<PrepareStep<Policy, N, D>, JSONRPCErrorError>(step),
            connection_id,
            params,
            service_directory,
            join,
        ),
    ensures
        params.additional_permissions is None ==> step is Ready,
        params.additional_permissions matches Some(Ok(normalized)) ==> {
            &&& normalized.is_empty ==> step is Ready
            &&& !normalized.is_empty ==> (step matches PrepareStep::NeedsApproval(pending)
                && pending.permissions() == normalized.profile)
        },
        step matches PrepareStep::Ready(ready) ==> {
            &&& ready.granted() is None
            &&& ready.connection() == connection_id
            &&& ready.request() == params.command_exec
            &&& params.command_exec.cwd is None ==> ready.directory() == service_directory
            &&& params.command_exec.cwd matches Some(path) ==> call_ensures(
                join,
                (&path,),
                ready.directory(),
            )
        },
        step matches PrepareStep::NeedsApproval(pending) ==> {
            &&& pending.connection() == connection_id
            &&& pending.request() == params.command_exec
            &&& params.command_exec.cwd is None ==> pending.directory() == service_directory
            &&& params.command_exec.cwd matches Some(path) ==> call_ensures(
                join,
                (&path,),
                pending.directory(),
            )
        },
{
}

/// A command that waited for its permissions gets ready exactly by a plain
/// acceptance, and then with exactly the permissions that it waited for.
pub proof fn law_accepted_permissions_are_granted<Policy, N, D>(
    pending: PendingCommand<Policy, N, D>,
    reply: Option<ApprovalResponse>,
    result: Result<ReadyCommand<Policy, N, D>, JSONRPCErrorError>,
)
    requires
        is_approved(pending, reply, result),
    ensures
        result is Ok <==> reply == Some(Ok::<ApprovalDecision, String>(ApprovalDecision::Accept)),
        result matches Ok(ready) ==> {
            &&& ready.granted() == Some(pending.permissions())
            &&& ready.request() == pending.request()
            &&& ready.directory() == pending.directory()
            &&& ready.connection() == pending.connection()
        },
{
}

/// A command runs with the time, the cap and the environment that its request asks
/// for; where it asks for no cap, with the default one. A negative timeout is
/// refused.
pub proof fn law_commands_run_with_the_settings_asked_for<Policy, N, D>(
    ready: ReadyCommand<Policy, N, D>,
    env: Seq<(String, String)>,
    default_cap: usize,
    result: Result<SettledCommand<Policy, N, D>, JSONRPCErrorError>,
)
    requires
        settles(ready, env, default_cap, result),
    ensures
        ({
            let request = ready.request();
            let negative = request.timeout_ms matches Some(timeout) && timeout < 0;
            &&& result is Err <==> negative
            &&& result matches Err(error) ==> error.code == -32602 && error.message@
                == "command/exec timeoutMs must be non-negative, got "@ + signed_decimal(
                request.timeout_ms->0 as int,
            )
            &&& result matches Ok(settled) ==> {
                let settings = settled.settings();
                &&& request.disable_timeout ==> settings.expiration is Never
                &&& !request.disable_timeout ==> {
                    &&& request.timeout_ms is None ==> settings.expiration
                        == ExecExpiration::Timeout(None)
                    &&& request.timeout_ms matches Some(timeout) ==> (
                    settings.expiration matches ExecExpiration::Timeout(Some(set)) && set
                        == timeout)
                }
                &&& request.disable_output_cap ==> settings.output_bytes_cap is None
                    && settings.capture_policy is FullBuffer
                &&& !request.disable_output_cap ==> {
                    &&& settings.capture_policy is ShellTool
                    &&& request.output_bytes_cap is Some ==> settings.output_bytes_cap
                        == request.output_bytes_cap
                    &&& request.output_bytes_cap is None ==> settings.output_bytes_cap == Some(
                        default_cap,
                    )
                }
                &&& request.env is None ==> environment(settings.env@) == environment(env)
                &&& request.env matches Some(changes) ==> environment(settings.env@)
                    == overridden(environment(env), changes@)
                &&& settled.granted() == ready.granted()
                &&& settled.directory() == ready.directory()
                &&& settled.connection() == ready.connection()
            }
        }),
{
}

/// What is started is the command as the sandbox runs it, for the connection and
/// under the id of its request, with the terminal, the streams, the cap and the size
/// that the request asks for.
pub proof fn law_commands_are_started_as_requested<Policy, N, D, C>(
    ready: ReadyCommand<Policy, N, D>,
    env: Seq<(String, String)>,
    default_cap: usize,
    settled: SettledCommand<Policy, N, D>,
    sandboxed: SandboxedCommand<C>,
    start: StartProcessParams<C>,
)
    requires
        settles(
            ready,
            env,
            default_cap,
            Ok::<SettledCommand<Policy, N, D>, JSONRPCErrorError>(settled),
        ),
        finishes(
            settled,
            Ok::<SandboxedCommand<C>, String>(sandboxed),
            Ok::<StartProcessParams<C>, JSONRPCErrorError>(start),
        ),
    ensures
        start.command == sandboxed.command,
        start.cwd == sandboxed.cwd,
        ({
            let request = ready.request();
            &&& start.connection_id == ready.connection()
            &&& start.process_id == request.process_id
            &&& start.tty == request.tty
            &&& start.stream_stdin == request.stream_stdin
            &&& start.stream_stdout_stderr == request.stream_stdout_stderr
            &&& request.disable_output_cap ==> start.output_bytes_cap is None
            &&& !request.disable_output_cap && request.output_bytes_cap is Some
                ==> start.output_bytes_cap == request.output_bytes_cap
            &&& !request.disable_output_cap && request.output_bytes_cap is None
                ==> start.output_bytes_cap == Some(default_cap)
            &&& request.size is None <==> start.size is None
            &&& request.size matches Some(asked_for) ==> (start.size matches Some(size)
                && size.rows == asked_for.rows && size.cols == asked_for.cols && size.rows > 0
                && size.cols > 0)
            &&& settled.request().command == request.command
            &&& settled.request().sandbox_policy == request.sandbox_policy
        }),
{
}

/// A settled command is not started exactly if there is no sandbox for it or its
/// terminal has no room, which the client is told.
pub proof fn law_commands_need_a_sandbox_and_room<Policy, N, D, C>(
    settled: SettledCommand<Policy, N, D>,
    sandboxed: Result<SandboxedCommand<C>, String>,
    result: Result<StartProcessParams<C>, JSONRPCErrorError>,
)
    requires
        finishes(settled, sandboxed, result),
    ensures
        ({
            let no_room = settled.request().size matches Some(size) && (size.rows == 0 || size.cols
                == 0);
            &&& result is Ok <==> sandboxed is Ok && !no_room
            &&& sandboxed matches Err(reason) ==> (result matches Err(error) && error.code
                == -32603 && error.message@ == "failed to prepare sandbox: "@ + reason@)
            &&& sandboxed is Ok && no_room ==> (result matches Err(error) && error.code == -32602
                && error.message@ == "command/exec size rows and cols must be greater than 0"@)
        }),
{
}

/// A command runs under its own sandbox policy where it has one, and else under the
/// profile of the service; and network requests of the command are made in its name.
pub proof fn law_commands_act_under_their_own_name<
    Policy,
    N,
    D,
    Profile,
    F: Fn(&Policy) -> Profile,
    G: Fn(&D) -> Result<String, String>,
>(
    settled: SettledCommand<Policy, N, D>,
    startup_profile: Profile,
    from_policy: F,
    profile: Profile,
    context: NetworkApprovalContext,
    cwd_text: G,
)
    requires
        is_base_profile(settled.request().sandbox_policy, startup_profile, from_policy, profile),
        speaks_for(context, settled, cwd_text),
    ensures
        settled.request().sandbox_policy is None ==> profile == startup_profile,
        settled.request().sandbox_policy matches Some(policy) ==> call_ensures(
            from_policy,
            (&policy,),
            profile,
        ),
        context.connection_id == settled.connection(),
        context.process_id == settled.request().process_id,
        context.command@ == settled.request().command@,
        call_ensures(cwd_text, (&settled.directory(),), context.cwd),
{
}

/// An approval request shows the directory of the command and the permissions that
/// it waits for, each in its own place.
pub proof fn law_approval_requests_show_the_command<
    N,
    D,
    F: Fn(&D) -> Result<String, String>,
    G: Fn(&N) -> Result<String, String>,
>(
    payload: Result<PermissionsPayload, String>,
    directory: D,
    profile: N,
    cwd_text: F,
    permissions_text: G,
)
    requires
        shows(payload, directory, profile, cwd_text, permissions_text),
    ensures
        payload matches Ok(parts) ==> call_ensures(cwd_text, (&directory,), Ok(parts.cwd))
            && call_ensures(permissions_text, (&profile,), Ok(parts.additional_permissions)),
        payload matches Err(reason) ==> call_ensures(cwd_text, (&directory,), Err(reason))
            || call_ensures(permissions_text, (&profile,), Err(reason)),
{
}

/// A client is asked to approve the permissions of a command: what it is asked, and
/// the broker before and after it.
pub open spec fn asks_for<
    Policy,
    N,
    D,
    T,
    F: Fn(&D) -> Result<String, String>,
    G: Fn(&N) -> Result<String, String>,
>(
    pending: PendingCommand<Policy, N, D>,
    before: PermissionsApprovalBroker<T>,
    cwd_text: F,
    permissions_text: G,
    response_tx: T,
    result: Result<ApprovalRequest, JSONRPCErrorError>,
    after: PermissionsApprovalBroker<T>,
) -> bool {
    exists|payload: Result<PermissionsPayload, String>| #[trigger]
        shows(payload, pending.directory(), pending.permissions(), cwd_text, permissions_text)
            && asked(
            before,
            after,
            pending.connection(),
            pending.request().process_id,
            pending.request().command@,
            payload,
            response_tx,
            result,
        )
}

/// Whether an object shows a directory and permissions as the conversions give them.
pub open spec fn has_shown<
    N,
    D,
    F: Fn(&D) -> Result<String, String>,
    G: Fn(&N) -> Result<String, String>,
>(
    params: ObjectView,
    directory: D,
    permissions: N,
    cwd_text: F,
    permissions_text: G,
) -> bool {
    exists|cwd: String, shown: String| #[trigger]
        call_ensures(cwd_text, (&directory,), Ok(cwd)) && #[trigger] call_ensures(
            permissions_text,
            (&permissions,),
            Ok(shown),
        ) && has_member(params, "cwd"@, FieldValueView::Text(cwd@)) && has_member(
            params,
            "additionalPermissions"@,
            FieldValueView::Json(shown@),
        )
}

/// What a client is asked to approve is what its command would run with: the program
/// and its arguments, the directory and the very permissions that an acceptance
/// grants. The answer is awaited from the connection of the command.
pub proof fn law_clients_approve_what_is_granted<
    Policy,
    N,
    D,
    T,
    F: Fn(&D) -> Result<String, String>,
    G: Fn(&N) -> Result<String, String>,
>(
    pending: PendingCommand<Policy, N, D>,
    before: PermissionsApprovalBroker<T>,
    cwd_text: F,
    permissions_text: G,
    response_tx: T,
    request: ApprovalRequest,
    after: PermissionsApprovalBroker<T>,
)
    requires
        asks_for(
            pending,
            before,
            cwd_text,
            permissions_text,
            response_tx,
            Ok::<ApprovalRequest, JSONRPCErrorError>(request),
            after,
        ),
    ensures
        after.pending().contains_key(request.request_id@),
        after.pending()[request.request_id@].connection_id == pending.connection(),
        after.pending()[request.request_id@].process_id == pending.request().process_id,
        after.pending()[request.request_id@].response_tx == response_tx,
        request.message@ matches MessageView::Request { id, method, params } && has_member(
            params,
            "command"@,
            FieldValueView::TextList(texts(pending.request().command@)),
        ) && has_shown(
            params,
            pending.directory(),
            pending.permissions(),
            cwd_text,
            permissions_text,
        ),
{
    let payload = choose|payload: Result<PermissionsPayload, String>| #[trigger]
        shows(payload, pending.directory(), pending.permissions(), cwd_text, permissions_text)
            && asked(
            before,
            after,
            pending.connection(),
            pending.request().process_id,
            pending.request().command@,
            payload,
            response_tx,
            Ok::<ApprovalRequest, JSONRPCErrorError>(request),
        );
    law_permissions_are_asked_for_in_full(
        before,
        after,
        pending.connection(),
        pending.request().process_id,
        pending.request().command@,
        payload,
        response_tx,
        Ok::<ApprovalRequest, JSONRPCErrorError>(request),
        Seq::empty(),
    );
    let parts = payload->Ok_0;
    assert(call_ensures(cwd_text, (&pending.directory(),), Ok(parts.cwd)));
    assert(call_ensures(
        permissions_text,
        (&pending.permissions(),),
        Ok(parts.additional_permissions),
    ));
}

} // verus!
