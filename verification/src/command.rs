//! Commands: instructions decoded from their code and parameter 1, and what
//! the application shows after handling one.

use vstd::prelude::*;

use crate::messages::{GetPubKeyP1, Ins, PingP1, SignMsgP1, SignTxP1};
use crate::sign_message::SignMessageContext;
use crate::sign_tx::{TxPhase, TxProcessingContext};
use crate::status::StatusWord;
use crate::transport::RawInstruction;

verus! {

/// A command of the host, with its data.
#[derive(Clone, Debug)]
pub enum Command {
    GetPubKey { p1: GetPubKeyP1, data: Vec<u8> },
    SignTx { p1: SignTxP1, data: Vec<u8> },
    SignMessage { p1: SignMsgP1, data: Vec<u8> },
    Ping,
}

/// A command without its data.
#[derive(Clone, Copy, Debug, PartialEq, Eq, Structural)]
pub enum CommandTag {
    GetPubKey { p1: GetPubKeyP1 },
    SignTx { p1: SignTxP1 },
    SignMessage { p1: SignMsgP1 },
    Ping,
}

/// The command that an instruction code, parameter 1 and data stand for, or
/// why there is none: an unknown code is `InsNotSupported`, a parameter 1
/// out of range is `WrongP1P2`, and a ping with data is `InvalidData`.
pub open spec fn spec_command_tag(ins: u8, p1: u8, data_len: nat) -> Result<CommandTag, StatusWord> {
    if ins == 0 {
        if p1 == 0 {
            Ok(CommandTag::GetPubKey { p1: GetPubKeyP1::NoDisplayAddress })
        } else if p1 == 1 {
            Ok(CommandTag::GetPubKey { p1: GetPubKeyP1::DisplayAddress })
        } else {
            Err(StatusWord::WrongP1P2)
        }
    } else if ins == 1 {
        if p1 == 0 {
            Ok(CommandTag::SignTx { p1: SignTxP1::Start })
        } else if p1 == 1 {
            Ok(CommandTag::SignTx { p1: SignTxP1::Next })
        } else {
            Err(StatusWord::WrongP1P2)
        }
    } else if ins == 2 {
        if p1 == 0 {
            Ok(CommandTag::SignMessage { p1: SignMsgP1::Start })
        } else if p1 == 1 {
            Ok(CommandTag::SignMessage { p1: SignMsgP1::Next })
        } else {
            Err(StatusWord::WrongP1P2)
        }
    } else if ins == 3 {
        if p1 != 0 {
            Err(StatusWord::WrongP1P2)
        } else if data_len != 0 {
            Err(StatusWord::InvalidData)
        } else {
            Ok(CommandTag::Ping)
        }
    } else {
        Err(StatusWord::InsNotSupported)
    }
}

impl Command {
    /// The command without its data.
    pub open spec fn spec_tag(&self) -> CommandTag {
        match self {
            Command::GetPubKey { p1, .. } => CommandTag::GetPubKey { p1: *p1 },
            Command::SignTx { p1, .. } => CommandTag::SignTx { p1: *p1 },
            Command::SignMessage { p1, .. } => CommandTag::SignMessage { p1: *p1 },
            Command::Ping => CommandTag::Ping,
        }
    }

    /// The data of the command (none for a ping).
    pub open spec fn spec_data(&self) -> Seq<u8> {
        match self {
            Command::GetPubKey { data, .. } => data@,
            Command::SignTx { data, .. } => data@,
            Command::SignMessage { data, .. } => data@,
            Command::Ping => Seq::empty(),
        }
    }

    /// The command without its data.
    pub fn tag(&self) -> (r: CommandTag)
        ensures
            r == self.spec_tag(),
    {
        match self {
            Command::GetPubKey { p1, .. } => CommandTag::GetPubKey { p1: *p1 },
            Command::SignTx { p1, .. } => CommandTag::SignTx { p1: *p1 },
            Command::SignMessage { p1, .. } => CommandTag::SignMessage { p1: *p1 },
            Command::Ping => CommandTag::Ping,
        }
    }

    /// Decodes an instruction into a command.
    pub fn try_from(raw: RawInstruction) -> (r: Result<Command, StatusWord>)
        ensures
            match (r, spec_command_tag(raw.ins, raw.p1, raw.data@.len())) {
                (Ok(c), Ok(t)) => c.spec_tag() == t && c.spec_data() == raw.data@,
                (Err(e), Err(f)) => e == f,
                _ => false,
            },
    {
        if raw.ins == Ins::GET_PUB_KEY {
            let p1 = GetPubKeyP1::from_u8(raw.p1)?;
            Ok(Command::GetPubKey { p1, data: raw.data })
        } else if raw.ins == Ins::SIGN_TX {
            let p1 = SignTxP1::from_u8(raw.p1)?;
            Ok(Command::SignTx { p1, data: raw.data })
        } else if raw.ins == Ins::SIGN_MSG {
            let p1 = SignMsgP1::from_u8(raw.p1)?;
            Ok(Command::SignMessage { p1, data: raw.data })
        } else if raw.ins == Ins::PING {
            let _p1 = PingP1::from_u8(raw.p1)?;
            if raw.data.len() != 0 {
                Err(StatusWord::InvalidData)
            } else {
                Ok(Command::Ping)
            }
        } else {
            Err(StatusWord::InsNotSupported)
        }
    }
}

/// The kind of the status screen shown after a command.
#[derive(Clone, Copy, Debug, PartialEq, Eq, Structural)]
pub enum StatusType {
    Address,
    Transaction,
    Message,
}

/// What the application shows and keeps after handling a command: the status
/// screen (if any) and whether it goes back to the home screen and drops the
/// signing context.
#[derive(Clone, Copy, Debug, PartialEq, Eq, Structural)]
pub struct AfterCommand {
    pub show_status: Option<StatusType>,
    pub success: bool,
    pub go_home: bool,
}

/// What follows a command: after a public key request the home screen (with
/// a status screen first if the address was shown); after a signing step that
/// finished the signing or failed, its status screen and the home screen;
/// after a ping the home screen.
pub open spec fn spec_after_command(tag: CommandTag, finished: bool, status: StatusWord) -> AfterCommand {
    let success = status == StatusWord::Success;
    match tag {
        CommandTag::GetPubKey { p1 } => AfterCommand {
            show_status: if p1 == GetPubKeyP1::DisplayAddress {
                Some(StatusType::Address)
            } else {
                None
            },
            success,
            go_home: true,
        },
        CommandTag::SignTx { .. } => if finished || !success {
            AfterCommand { show_status: Some(StatusType::Transaction), success, go_home: true }
        } else {
            AfterCommand { show_status: None, success, go_home: false }
        },
        CommandTag::SignMessage { .. } => if finished || !success {
            AfterCommand { show_status: Some(StatusType::Message), success, go_home: true }
        } else {
            AfterCommand { show_status: None, success, go_home: false }
        },
        CommandTag::Ping => AfterCommand { show_status: None, success, go_home: true },
    }
}

/// Decides what the application shows after a command; `finished` is whether
/// the signing context is done.
pub fn after_command_handling(tag: CommandTag, finished: bool, status: StatusWord) -> (r:
    AfterCommand)
    ensures
        r == spec_after_command(tag, finished, status),
{
    let success = status == StatusWord::Success;
    match tag {
        CommandTag::GetPubKey { p1 } => AfterCommand {
            show_status: if p1.display() {
                Some(StatusType::Address)
            } else {
                None
            },
            success,
            go_home: true,
        },
        CommandTag::SignTx { .. } => if finished || !success {
            AfterCommand { show_status: Some(StatusType::Transaction), success, go_home: true }
        } else {
            AfterCommand { show_status: None, success, go_home: false }
        },
        CommandTag::SignMessage { .. } => if finished || !success {
            AfterCommand { show_status: Some(StatusType::Message), success, go_home: true }
        } else {
            AfterCommand { show_status: None, success, go_home: false }
        },
        CommandTag::Ping => AfterCommand { show_status: None, success, go_home: true },
    }
}

/// A failed signing step always ends the signing: its status screen shows the
/// failure and the application returns home.
pub proof fn lemma_failure_ends_signing(tag: CommandTag, finished: bool, status: StatusWord)
    requires
        status != StatusWord::Success,
        tag matches CommandTag::SignTx { .. } || tag matches CommandTag::SignMessage { .. },
    ensures
        spec_after_command(tag, finished, status).go_home,
        spec_after_command(tag, finished, status).show_status is Some,
        !spec_after_command(tag, finished, status).success,
{
}

/// The signing under way between commands.
pub enum DataContext {
    TxContext(TxProcessingContext),
    SignMessageContext(SignMessageContext),
}

/// A transaction context kept between commands is one that signing reaches.
pub open spec fn data_context_wf(ctx: Option<DataContext>) -> bool {
    match ctx {
        Some(DataContext::TxContext(c)) => c.wf(),
        _ => true,
    }
}

/// The signing under way is done: all signatures returned, or the message
/// review answered.
pub open spec fn spec_data_context_finished(ctx: Option<DataContext>) -> bool {
    match ctx {
        Some(DataContext::TxContext(c)) => c.view().phase == TxPhase::Finished,
        Some(DataContext::SignMessageContext(c)) => c.finished_view(),
        None => false,
    }
}

/// Whether the signing under way is done.
pub fn data_context_finished(ctx: &Option<DataContext>) -> (r: bool)
    ensures
        r == spec_data_context_finished(*ctx),
{
    match ctx {
        Some(DataContext::TxContext(c)) => c.finished(),
        Some(DataContext::SignMessageContext(c)) => c.finished(),
        None => false,
    }
}

/// Takes the transaction context out for the next signing step; nothing is
/// left behind, and without a transaction under way it is `WrongContext`.
pub fn take_tx_context(ctx: &mut Option<DataContext>) -> (r: Result<TxProcessingContext, StatusWord>)
    requires
        data_context_wf(*old(ctx)),
    ensures
        (*final(ctx)) is None,
        r is Ok <==> old(ctx) matches Some(DataContext::TxContext(_)),
        r matches Ok(c) ==> *old(ctx) == Some(DataContext::TxContext(c)) && c.wf(),
        r is Err ==> r == Err::<TxProcessingContext, StatusWord>(StatusWord::WrongContext),
{
    match ctx.take() {
        Some(DataContext::TxContext(c)) => Ok(c),
        _ => Err(StatusWord::WrongContext),
    }
}

/// Takes the message context out for the message; without a message
/// signing under way it is `WrongContext`, and what was there stays.
pub fn take_sign_message_context(ctx: &mut Option<DataContext>) -> (r: Result<
    SignMessageContext,
    StatusWord,
>)
    ensures
        r is Ok <==> old(ctx) matches Some(DataContext::SignMessageContext(_)),
        r matches Ok(c) ==> *old(ctx) == Some(DataContext::SignMessageContext(c))
            && (*final(ctx)) is None,
        r is Err ==> r == Err::<SignMessageContext, StatusWord>(StatusWord::WrongContext)
            && *final(ctx) == *old(ctx),
{
    match ctx.take() {
        Some(DataContext::SignMessageContext(c)) => Ok(c),
        other => {
            *ctx = other;
            Err(StatusWord::WrongContext)
        },
    }
}

} // verus!
