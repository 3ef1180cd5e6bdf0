//! The patch server's conversation: welcome a client, ask it to log in,
//! greet it and send it on to the data server.

use vstd::prelude::*;
use vstd::string::StringExecFns;

use crate::message::patch::{Motd, Redirect, Welcome};

verus! {

/// What a patch client sent, as far as the server tells messages apart.
#[derive(Clone, Copy, Debug, PartialEq, Eq, Structural)]
pub enum PatchRequest {
    /// A welcome without contents: the client is ready to log in.
    Welcome,
    /// A login with contents.
    Login,
    /// Anything else.
    Other,
}

/// What the server does for a patch client.
pub enum PatchAction {
    /// Ask the client to log in.
    AskLogin,
    /// Send the message of the day.
    SendMotd(Motd),
    /// Send the client to a data server.
    SendRedirect(Redirect),
    /// Disconnect the client.
    Drop,
}

/// An action as plain values.
pub enum PatchActionView {
    AskLogin,
    SendMotd(Seq<char>),
    SendRedirect(u32, u16),
    Drop,
}

/// The plain values of an action.
pub open spec fn patch_action_view(a: PatchAction) -> PatchActionView {
    match a {
        PatchAction::AskLogin => PatchActionView::AskLogin,
        PatchAction::SendMotd(m) => PatchActionView::SendMotd(m.message@),
        PatchAction::SendRedirect(r) => PatchActionView::SendRedirect(r.ip_addr, r.port),
        PatchAction::Drop => PatchActionView::Drop,
    }
}

/// What the server does for each request: a welcome is answered by the
/// login request; a login by the greeting "Hi there\nfriend", the data
/// server 127.0.0.1 port 11001, and the end of the connection; anything
/// else is ignored.
pub open spec fn patch_actions(req: PatchRequest) -> Seq<PatchActionView> {
    match req {
        PatchRequest::Welcome => seq![PatchActionView::AskLogin],
        PatchRequest::Login => seq![
            PatchActionView::SendMotd("Hi there\nfriend"@),
            PatchActionView::SendRedirect(0x7F00_0001u32, 11001u16),
            PatchActionView::Drop,
        ],
        PatchRequest::Other => Seq::empty(),
    }
}

/// The patch server.
pub struct PatchService;

impl PatchService {
    /// The welcome a newly connected client is sent: both encryption
    /// vectors zero.
    pub fn welcome() -> (r: Welcome)
        ensures
            r.server_vector == 0 && r.client_vector == 0,
    {
        Welcome { server_vector: 0, client_vector: 0 }
    }

    /// What the server does for a client's request.
    pub fn respond(req: PatchRequest) -> (r: Vec<PatchAction>)
        ensures
            r@.map_values(|a: PatchAction| patch_action_view(a)) == patch_actions(req),
    {
        let mut acts: Vec<PatchAction> = Vec::new();
        match req {
            PatchRequest::Welcome => {
                acts.push(PatchAction::AskLogin);
            },
            PatchRequest::Login => {
                acts.push(PatchAction::SendMotd(Motd { message: String::from_str("Hi there\nfriend") }));
                acts.push(PatchAction::SendRedirect(Redirect { ip_addr: 0x7F00_0001, port: 11001 }));
                acts.push(PatchAction::Drop);
            },
            PatchRequest::Other => {},
        }
        assert(acts@.map_values(|a: PatchAction| patch_action_view(a)) =~= patch_actions(req));
        acts
    }
}

/// What a data server client sent, as far as the server tells messages
/// apart.
#[derive(Clone, Copy, Debug, PartialEq, Eq, Structural)]
pub enum DataRequest {
    /// A welcome without contents: the client is ready to log in.
    Welcome,
    /// A login with contents.
    Login,
    /// The client finished listing its files.
    FileListDone,
    /// Anything else.
    Other,
}

/// What the data server sends a client.
#[derive(Clone, Copy, Debug, PartialEq, Eq, Structural)]
pub enum DataAction {
    /// Ask the client to log in.
    AskLogin,
    /// Start the file list.
    StartList,
    /// Enter the (unnamed) root directory.
    SetDirectory,
    /// The file list information is complete.
    InfoFinished,
    /// Go up one directory.
    OneDirUp,
    /// Nothing more is sent: the client is up to date.
    SendDone,
}

/// What the data server sends for each request: a welcome is answered by
/// the login request; a login by an empty file list (start, the root
/// directory, end of information); the client's file list by the root
/// directory, going up, and the end of sending. Anything else is ignored.
pub open spec fn data_actions(req: DataRequest) -> Seq<DataAction> {
    match req {
        DataRequest::Welcome => seq![DataAction::AskLogin],
        DataRequest::Login => seq![DataAction::StartList, DataAction::SetDirectory, DataAction::InfoFinished],
        DataRequest::FileListDone => seq![DataAction::SetDirectory, DataAction::OneDirUp, DataAction::SendDone],
        DataRequest::Other => Seq::empty(),
    }
}

/// The patch data server.
pub struct DataService;

impl DataService {
    /// What the server sends for a client's request.
    pub fn respond(req: DataRequest) -> (r: Vec<DataAction>)
        ensures
            r@ == data_actions(req),
    {
        let mut acts: Vec<DataAction> = Vec::new();
        match req {
            DataRequest::Welcome => {
                acts.push(DataAction::AskLogin);
            },
            DataRequest::Login => {
                acts.push(DataAction::StartList);
                acts.push(DataAction::SetDirectory);
                acts.push(DataAction::InfoFinished);
            },
            DataRequest::FileListDone => {
                acts.push(DataAction::SetDirectory);
                acts.push(DataAction::OneDirUp);
                acts.push(DataAction::SendDone);
            },
            DataRequest::Other => {},
        }
        assert(acts@ =~= data_actions(req));
        acts
    }
}

/// The message types of the patch protocol.
pub const MSG_WELCOME: u32 = 0x02;
pub const MSG_LOGIN: u32 = 0x04;
pub const MSG_SET_DIRECTORY: u32 = 0x09;
pub const MSG_ONE_DIR_UP: u32 = 0x0A;
pub const MSG_START_LIST: u32 = 0x0B;
pub const MSG_INFO_FINISHED: u32 = 0x0D;
pub const MSG_FILE_LIST_DONE: u32 = 0x10;
pub const MSG_SEND_DONE: u32 = 0x12;
pub const MSG_MOTD: u32 = 0x13;
pub const MSG_REDIRECT: u32 = 0x14;

/// What a patch client's message of type `msg_type` with a body of
/// `body_len` bytes asks: a welcome without contents, a login with
/// contents, or anything else.
pub open spec fn patch_request_of(msg_type: u32, body_len: usize) -> PatchRequest {
    if msg_type == MSG_WELCOME && body_len == 0 {
        PatchRequest::Welcome
    } else if msg_type == MSG_LOGIN && body_len > 0 {
        PatchRequest::Login
    } else {
        PatchRequest::Other
    }
}

/// What a data client's message of type `msg_type` with a body of
/// `body_len` bytes asks: as for a patch client, and the end of the
/// client's file list, whatever its contents.
pub open spec fn data_request_of(msg_type: u32, body_len: usize) -> DataRequest {
    if msg_type == MSG_WELCOME && body_len == 0 {
        DataRequest::Welcome
    } else if msg_type == MSG_LOGIN && body_len > 0 {
        DataRequest::Login
    } else if msg_type == MSG_FILE_LIST_DONE {
        DataRequest::FileListDone
    } else {
        DataRequest::Other
    }
}

impl PatchRequest {
    /// Tells apart what a patch client's message of type `msg_type`, with
    /// a body of `body_len` bytes, asks.
    pub fn decode(msg_type: u32, body_len: usize) -> (r: PatchRequest)
        ensures
            r == patch_request_of(msg_type, body_len),
    {
        if msg_type == MSG_WELCOME && body_len == 0 {
            PatchRequest::Welcome
        } else if msg_type == MSG_LOGIN && body_len > 0 {
            PatchRequest::Login
        } else {
            PatchRequest::Other
        }
    }
}

impl DataRequest {
    /// Tells apart what a data client's message of type `msg_type`, with a
    /// body of `body_len` bytes, asks.
    pub fn decode(msg_type: u32, body_len: usize) -> (r: DataRequest)
        ensures
            r == data_request_of(msg_type, body_len),
    {
        if msg_type == MSG_WELCOME && body_len == 0 {
            DataRequest::Welcome
        } else if msg_type == MSG_LOGIN && body_len > 0 {
            DataRequest::Login
        } else if msg_type == MSG_FILE_LIST_DONE {
            DataRequest::FileListDone
        } else {
            DataRequest::Other
        }
    }
}

} // verus!
