//! Response actions: the commands that block a connection, quarantine a
//! process or end it, and what their outcome means. Running a command is left
//! to the caller.

use vstd::prelude::*;
use crate::text::{
    chars_of, contains, contains_text, decimal, eq_ignore_ascii_case, push_decimal,
    push_signed_decimal, push_text, signed_decimal, slice_of, spells_ignoring_case, split, split_on,
    string_of, texts,
};

verus! {

/// What the caller is to carry out on the host.
#[derive(Debug)]
pub enum HostCommand {
    /// End the process `pid` with the given exit code.
    Terminate { pid: u32, exit_code: u32 },
    /// Run `line` through the command interpreter.
    Shell { line: String },
}

/// A [`HostCommand`] with its strings as texts.
pub enum HostCommandView {
    Terminate { pid: u32, exit_code: u32 },
    Shell { line: Seq<char> },
}

impl View for HostCommand {
    type V = HostCommandView;

    open spec fn view(&self) -> HostCommandView {
        match self {
            HostCommand::Terminate { pid, exit_code } => HostCommandView::Terminate {
                pid: *pid,
                exit_code: *exit_code,
            },
            HostCommand::Shell { line } => HostCommandView::Shell { line: line@ },
        }
    }
}

/// Why an action was not taken, or failed.
#[derive(Debug)]
pub enum ActionError {
    /// The process id is not positive.
    InvalidPid(i32),
    /// The command failed; the text says how.
    Failed(String),
}

/// An [`ActionError`] with its strings as texts.
pub enum ActionFault {
    InvalidPid(i32),
    Failed(Seq<char>),
}

impl View for ActionError {
    type V = ActionFault;

    open spec fn view(&self) -> ActionFault {
        match self {
            ActionError::InvalidPid(pid) => ActionFault::InvalidPid(*pid),
            ActionError::Failed(why) => ActionFault::Failed(why@),
        }
    }
}

impl ActionError {
    /// The text of the error as shown to an operator.
    pub open spec fn message_text(self) -> Seq<char> {
        match self {
            ActionError::InvalidPid(pid) => "invalid PID: "@ + signed_decimal(pid as int),
            ActionError::Failed(why) => why@,
        }
    }

    /// The text of the error as shown to an operator.
    pub fn message(&self) -> (r: String)
        ensures
            r@ == self.message_text(),
    {
        match self {
            ActionError::InvalidPid(pid) => {
                let mut out = String::new();
                push_text(&mut out, "invalid PID: ");
                push_signed_decimal(&mut out, *pid as i64);
                out
            },
            ActionError::Failed(why) => why.clone(),
        }
    }
}

/// The name of the firewall rule that blocks a connection.
pub open spec fn block_rule_name(src_ip: Seq<char>, src_port: u16, dst_ip: Seq<char>, dst_port: u16) -> Seq<
    char,
> {
    "NETS_Block_"@ + src_ip + "_"@ + decimal(src_port as nat) + "_"@ + dst_ip + "_"@ + decimal(
        dst_port as nat,
    )
}

/// The name of the firewall rule that quarantines a process.
pub open spec fn quarantine_rule_name(pid: i32) -> Seq<char> {
    "NETS_Quarantine_PID_"@ + signed_decimal(pid as int)
}

/// The transport that a block rule names: TCP where the protocol is `tcp` in
/// any case, UDP for every other protocol.
pub open spec fn rule_transport(protocol: Seq<char>) -> Seq<char> {
    if eq_ignore_ascii_case(protocol, "TCP"@) {
        "TCP"@
    } else {
        "UDP"@
    }
}

/// The command that blocks outbound traffic to the remote end of a connection.
pub open spec fn block_command(
    src_ip: Seq<char>,
    src_port: u16,
    dst_ip: Seq<char>,
    dst_port: u16,
    protocol: Seq<char>,
) -> Seq<char> {
    "netsh advfirewall firewall add rule name=\""@ + block_rule_name(
        src_ip,
        src_port,
        dst_ip,
        dst_port,
    ) + "\" dir=out protocol="@ + rule_transport(protocol) + " remoteip="@ + dst_ip
        + " remoteport="@ + decimal(dst_port as nat) + " action=block"@
}

/// The command that removes a firewall rule.
pub open spec fn unblock_command(rule_name: Seq<char>) -> Seq<char> {
    "netsh advfirewall firewall delete rule name=\""@ + rule_name + "\""@
}

/// The command that blocks all outbound traffic under a process's rule.
pub open spec fn quarantine_command(pid: i32) -> Seq<char> {
    "netsh advfirewall firewall add rule name=\""@ + quarantine_rule_name(pid)
        + "\" dir=out program=* action=block"@
}

/// A line of a listing without the carriage return that may end it.
pub open spec fn line_text(piece: Seq<char>) -> Seq<char> {
    if piece.len() > 0 && piece.last() == '\r' {
        piece.drop_last()
    } else {
        piece
    }
}

/// The lines of a firewall listing that name a block rule, in order.
pub open spec fn block_rule_lines(pieces: Seq<Seq<char>>) -> Seq<Seq<char>>
    decreases pieces.len(),
{
    if pieces.len() == 0 {
        Seq::empty()
    } else {
        let earlier = block_rule_lines(pieces.drop_last());
        if contains_text(line_text(pieces.last()), "NETS_Block"@) {
            earlier.push(line_text(pieces.last()))
        } else {
            earlier
        }
    }
}

/// Which action a command belongs to.
#[derive(Debug, Clone, Copy, PartialEq, Eq, Structural)]
pub enum ActionKind {
    Block,
    Unblock,
    Quarantine,
    Terminate(i32),
}

/// What the outcome of a command means. A failed block, unblock or quarantine
/// reports what the command wrote to its error stream; a failed termination
/// names the process.
pub open spec fn outcome_of(kind: ActionKind, success: bool, stderr: Seq<char>) -> Result<
    (),
    ActionFault,
> {
    if success {
        Ok(())
    } else {
        match kind {
            ActionKind::Block => Err(
                ActionFault::Failed("failed to create firewall rule: "@ + stderr),
            ),
            ActionKind::Unblock => Err(
                ActionFault::Failed("failed to remove firewall rule: "@ + stderr),
            ),
            ActionKind::Quarantine => Err(
                ActionFault::Failed("failed to create quarantine rule: "@ + stderr),
            ),
            ActionKind::Terminate(pid) => Err(
                ActionFault::Failed(
                    "failed to terminate process PID "@ + signed_decimal(pid as int),
                ),
            ),
        }
    }
}

/// The view of the outcome of an action.
pub open spec fn action_view<T>(r: Result<T, ActionError>) -> Result<T, ActionFault> {
    match r {
        Ok(t) => Ok(t),
        Err(e) => Err(e@),
    }
}

/// Builds the commands of the response actions.
pub struct ActionHandler;

impl ActionHandler {
    /// The command that ends a process, with exit code 1. A process id that
    /// is not positive is refused.
    pub fn terminate_process(pid: i32) -> (r: Result<HostCommand, ActionError>)
        ensures
            match r {
                Ok(c) => pid > 0 && c@ == (HostCommandView::Terminate {
                    pid: pid as u32,
                    exit_code: 1,
                }),
                Err(e) => pid <= 0 && e@ == ActionFault::InvalidPid(pid),
            },
    {
        if pid <= 0 {
            return Err(ActionError::InvalidPid(pid));
        }
        Ok(HostCommand::Terminate { pid: pid as u32, exit_code: 1 })
    }

    /// The name of the firewall rule that blocks a connection.
    pub fn rule_name(src_ip: &str, src_port: u16, dst_ip: &str, dst_port: u16) -> (r: String)
        ensures
            r@ == block_rule_name(src_ip@, src_port, dst_ip@, dst_port),
    {
        let mut out = String::new();
        push_text(&mut out, "NETS_Block_");
        push_text(&mut out, src_ip);
        push_text(&mut out, "_");
        push_decimal(&mut out, src_port as u64);
        push_text(&mut out, "_");
        push_text(&mut out, dst_ip);
        push_text(&mut out, "_");
        push_decimal(&mut out, dst_port as u64);
        assert(out@ == block_rule_name(src_ip@, src_port, dst_ip@, dst_port));
        out
    }

    /// The name of the firewall rule that quarantines a process.
    pub fn quarantine_rule(pid: i32) -> (r: String)
        ensures
            r@ == quarantine_rule_name(pid),
    {
        let mut out = String::new();
        push_text(&mut out, "NETS_Quarantine_PID_");
        push_signed_decimal(&mut out, pid as i64);
        out
    }

    /// The command that blocks a connection.
    pub fn block_connection(
        src_ip: &str,
        src_port: u16,
        dst_ip: &str,
        dst_port: u16,
        protocol: &str,
    ) -> (r: HostCommand)
        ensures
            r@ == (HostCommandView::Shell {
                line: block_command(src_ip@, src_port, dst_ip@, dst_port, protocol@),
            }),
    {
        let name = Self::rule_name(src_ip, src_port, dst_ip, dst_port);
        let p = chars_of(protocol);
        let transport = if spells_ignoring_case(&p, "TCP") {
            "TCP"
        } else {
            "UDP"
        };
        let mut line = String::new();
        push_text(&mut line, "netsh advfirewall firewall add rule name=\"");
        push_text(&mut line, name.as_str());
        push_text(&mut line, "\" dir=out protocol=");
        push_text(&mut line, transport);
        push_text(&mut line, " remoteip=");
        push_text(&mut line, dst_ip);
        push_text(&mut line, " remoteport=");
        push_decimal(&mut line, dst_port as u64);
        push_text(&mut line, " action=block");
        assert(line@ == block_command(src_ip@, src_port, dst_ip@, dst_port, protocol@));
        HostCommand::Shell { line }
    }

    /// The command that removes the firewall rule `rule_name`.
    pub fn unblock_connection(rule_name: &str) -> (r: HostCommand)
        ensures
            r@ == (HostCommandView::Shell { line: unblock_command(rule_name@) }),
    {
        let mut line = String::new();
        push_text(&mut line, "netsh advfirewall firewall delete rule name=\"");
        push_text(&mut line, rule_name);
        push_text(&mut line, "\"");
        HostCommand::Shell { line }
    }

    /// The command that lists the block rules.
    pub fn list_blocked_connections() -> (r: HostCommand)
        ensures
            r@ == (HostCommandView::Shell {
                line: "netsh advfirewall firewall show rule name=all | findstr NETS_Block"@,
            }),
    {
        HostCommand::Shell {
            line: "netsh advfirewall firewall show rule name=all | findstr NETS_Block".to_owned(),
        }
    }

    /// The lines of the listing command's output that name a block rule.
    pub fn blocked_rules(listing: &str) -> (r: Vec<String>)
        ensures
            crate::alert::string_texts(r@) == block_rule_lines(split(listing@, '\n')),
    {
        let v = chars_of(listing);
        let pieces = split_on(&v, '\n');
        let needle = chars_of("NETS_Block");
        let mut out: Vec<String> = Vec::new();
        let mut i: usize = 0;
        assert(crate::alert::string_texts(out@) =~= Seq::<Seq<char>>::empty());
        while i < pieces.len()
            invariant
                i <= pieces.len(),
                needle@ == "NETS_Block"@,
                crate::alert::string_texts(out@) == block_rule_lines(
                    texts(pieces@).take(i as int),
                ),
            decreases pieces.len() - i,
        {
            let ghost all = texts(pieces@);
            assert(all.take(i + 1).drop_last() == all.take(i as int));
            assert(all.take(i + 1).last() == pieces@[i as int]@);
            let piece = &pieces[i];
            let n = piece.len();
            let line = if n > 0 && piece[n - 1] == '\r' {
                assert(piece@.subrange(0, n - 1) == piece@.drop_last());
                slice_of(piece, 0, n - 1)
            } else {
                assert(piece@.subrange(0, n as int) == piece@);
                slice_of(piece, 0, n)
            };
            assert(line@ == line_text(piece@));
            if contains(&line, &needle) {
                let ghost before = crate::alert::string_texts(out@);
                let s = string_of(&line);
                out.push(s);
                assert(crate::alert::string_texts(out@) =~= before.push(line@));
            }
            i = i + 1;
        }
        assert(texts(pieces@).take(pieces.len() as int) == texts(pieces@));
        out
    }

    /// The command that quarantines a process.
    pub fn quarantine_process(pid: i32) -> (r: HostCommand)
        ensures
            r@ == (HostCommandView::Shell { line: quarantine_command(pid) }),
    {
        let name = Self::quarantine_rule(pid);
        let mut line = String::new();
        push_text(&mut line, "netsh advfirewall firewall add rule name=\"");
        push_text(&mut line, name.as_str());
        push_text(&mut line, "\" dir=out program=* action=block");
        HostCommand::Shell { line }
    }

    /// The command that releases a quarantined process: it removes the
    /// process's rule.
    pub fn release_quarantine(pid: i32) -> (r: HostCommand)
        ensures
            r@ == (HostCommandView::Shell { line: unblock_command(quarantine_rule_name(pid)) }),
    {
        let name = Self::quarantine_rule(pid);
        Self::unblock_connection(name.as_str())
    }

    /// What the outcome of a command means for its action.
    pub fn command_outcome(kind: ActionKind, success: bool, stderr: &str) -> (r: Result<
        (),
        ActionError,
    >)
        ensures
            action_view(r) == outcome_of(kind, success, stderr@),
    {
        if success {
            return Ok(());
        }
        match kind {
            ActionKind::Block => {
                let mut why = String::new();
                push_text(&mut why, "failed to create firewall rule: ");
                push_text(&mut why, stderr);
                Err(ActionError::Failed(why))
            },
            ActionKind::Unblock => {
                let mut why = String::new();
                push_text(&mut why, "failed to remove firewall rule: ");
                push_text(&mut why, stderr);
                Err(ActionError::Failed(why))
            },
            ActionKind::Quarantine => {
                let mut why = String::new();
                push_text(&mut why, "failed to create quarantine rule: ");
                push_text(&mut why, stderr);
                Err(ActionError::Failed(why))
            },
            ActionKind::Terminate(pid) => {
                let mut why = String::new();
                push_text(&mut why, "failed to terminate process PID ");
                push_signed_decimal(&mut why, pid as i64);
                Err(ActionError::Failed(why))
            },
        }
    }
}

} // verus!
