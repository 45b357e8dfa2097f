//! The per-connection session handler: the server's state machine.
//!
//! A handler holds the sandbox root (`home_directory`) and the session's
//! current directory, both as canonical component paths. Every request is
//! resolved lexically against the current directory and checked against the
//! sandbox — a genuine component-wise prefix test against the home directory —
//! before anything touches the disk. The handler decides; its caller performs
//! the filesystem and socket work and reports the facts the decisions need
//! (whether a target exists as a directory or file), so the rules here are
//! verified for every answer the filesystem can give.

use vstd::prelude::*;

use crate::message::MessageKind;
use crate::paths::{
    clone_components, display_path, is_path_prefix, join_components, path_has_prefix,
    resolve_components, spec_abs_path, spec_display_path, spec_resolve, spec_split, split_path,
};
use crate::server::message::sender::MessageSender;
use vstd::string::StringExecFns;

verus! {

/// One directory entry as the filesystem reports it: its name and whether it
/// is itself a directory.
#[derive(Debug)]
pub struct DirEntry {
    pub name: String,
    pub is_dir: bool,
}

/// How one entry is shown in a listing: directories get a trailing `/`.
pub open spec fn spec_entry_line(e: DirEntry) -> Seq<char> {
    if e.is_dir {
        e.name@ + seq!['/']
    } else {
        e.name@
    }
}

/// The listing text: the entry lines joined by newlines.
pub open spec fn spec_listing(entries: Seq<DirEntry>) -> Seq<char>
    decreases entries.len(),
{
    if entries.len() == 0 {
        Seq::<char>::empty()
    } else if entries.len() == 1 {
        spec_entry_line(entries[0])
    } else {
        spec_listing(entries.drop_last()) + seq!['\n'] + spec_entry_line(entries.last())
    }
}

/// Listing law: the listing text is a function of the directory entries
/// alone, so an unchanged directory lists identically on repeated calls.
pub proof fn lemma_listing_deterministic(e1: Seq<DirEntry>, e2: Seq<DirEntry>)
    requires
        e1 == e2,
    ensures
        spec_listing(e1) == spec_listing(e2),
{
}

/// Which handler a request kind is dispatched to; kinds that are no requests
/// are answered with a generic error and the session goes on.
#[derive(Debug, Clone, Copy, PartialEq, Eq, Structural)]
pub enum RequestClass {
    Mkdir,
    Cd,
    Ls,
    Down,
    Up,
    Unsupported,
}

/// The dispatch rule of the request loop.
pub open spec fn spec_classify(kind: MessageKind) -> RequestClass {
    match kind {
        MessageKind::Mkdir => RequestClass::Mkdir,
        MessageKind::Cd => RequestClass::Cd,
        MessageKind::Ls => RequestClass::Ls,
        MessageKind::Down => RequestClass::Down,
        MessageKind::Up => RequestClass::Up,
        _ => RequestClass::Unsupported,
    }
}

/// Dispatches a request kind.
pub fn classify_request(kind: MessageKind) -> (r: RequestClass)
    ensures
        r == spec_classify(kind),
{
    match kind {
        MessageKind::Mkdir => RequestClass::Mkdir,
        MessageKind::Cd => RequestClass::Cd,
        MessageKind::Ls => RequestClass::Ls,
        MessageKind::Down => RequestClass::Down,
        MessageKind::Up => RequestClass::Up,
        _ => RequestClass::Unsupported,
    }
}

/// What a make-directory request decides: create the directory at the
/// resolved path, or refuse with the given reply.
#[derive(Debug)]
pub enum MkdirDecision {
    Create(Vec<String>),
    Reject(MessageSender),
}

/// What a download request decides: send this `File` message (its payload
/// streamed under the path's read lock), or refuse with the given reply.
#[derive(Debug)]
pub enum DownDecision {
    Send(MessageSender),
    Reject(MessageSender),
}

/// What an upload request decides: tell the client to proceed with the first
/// message and stream the payload into the named path (under its write lock),
/// or refuse with the given reply.
#[derive(Debug)]
pub enum UpDecision {
    Receive(MessageSender, String),
    Reject(MessageSender),
}

/// The server-side state of one client session.
#[derive(Debug)]
pub struct ConnectionHandler {
    pub home_directory: Vec<String>,
    pub current_directory: Vec<String>,
    pub connection_dropped: bool,
}

impl ConnectionHandler {
    /// The session invariant: the current directory never leaves the sandbox.
    pub open spec fn wf(self) -> bool {
        is_path_prefix(self.home_directory.deep_view(), self.current_directory.deep_view())
    }

    /// Where a request's textual path argument leads: resolved against the
    /// current directory, one component at a time.
    pub open spec fn spec_request_target(self, arg: Seq<char>) -> Seq<Seq<char>> {
        spec_resolve(self.current_directory.deep_view(), spec_split(arg))
    }

    /// Starts a session at the sandbox root, given as its canonical component
    /// path.
    pub fn new(home_directory: Vec<String>) -> (r: Self)
        ensures
            r.wf(),
            r.home_directory == home_directory,
            r.current_directory.deep_view() == home_directory.deep_view(),
            !r.connection_dropped,
    {
        let current_directory = clone_components(&home_directory);
        Self { home_directory, current_directory, connection_dropped: false }
    }

    /// Resolves a request's textual path argument against the current
    /// directory. Callers use the result to ask the filesystem about the
    /// target before the decision functions rule on it.
    pub fn resolve_request(&self, arg: &String) -> (r: Vec<String>)
        ensures
            r.deep_view() == self.spec_request_target(arg@),
    {
        let parts = split_path(arg);
        resolve_components(&self.current_directory, &parts)
    }

    /// A `Success` reply carrying the given text, or none.
    pub fn success_message(&self, message_string: Option<String>) -> (r: MessageSender)
        ensures
            r.command == MessageKind::Success,
            r.arguments@ == match message_string {
                Some(s) => s@,
                None => Seq::<char>::empty(),
            },
            r.file_path is None,
    {
        let message_string = match message_string {
            Some(string) => string,
            None => String::new(),
        };
        MessageSender::new(MessageKind::Success, message_string, None)
    }

    /// An `Error` reply carrying the given text.
    pub fn error_message(&self, message_string: String) -> (r: MessageSender)
        ensures
            r.command == MessageKind::Error,
            r.arguments == message_string,
            r.file_path is None,
    {
        MessageSender::new(MessageKind::Error, message_string, None)
    }

    /// The reply sent when carrying out a request failed at the server (the
    /// filesystem refused, or a request kind is not understood): a generic,
    /// recoverable error.
    pub fn request_failure_reply(&self) -> (r: MessageSender)
        ensures
            r.command == MessageKind::Error,
            r.arguments@ == "There was an error at the server. Please try again!"@,
            r.file_path is None,
    {
        self.error_message("There was an error at the server. Please try again!".to_owned())
    }

    /// The display form of a sandbox-contained path, as shown in the client's
    /// prompt: home-relative, prefixed `~/`.
    pub fn get_display_path(&self, path: &Vec<String>) -> (r: String)
        requires
            is_path_prefix(self.home_directory.deep_view(), path.deep_view()),
        ensures
            r@ == spec_display_path(self.home_directory.deep_view(), path.deep_view()),
    {
        display_path(&self.home_directory, path)
    }

    /// Whether a resolved path is a directory the session may enter: it must
    /// exist as a directory (the caller checked the filesystem) and lie in
    /// the sandbox.
    pub fn is_valid_directory(&self, path: &Vec<String>, exists_as_dir: bool) -> (r: bool)
        ensures
            r == (exists_as_dir && is_path_prefix(self.home_directory.deep_view(), path.deep_view())),
    {
        exists_as_dir && path_has_prefix(&self.home_directory, path)
    }

    /// Whether a resolved path is a file the session may touch: it must exist
    /// as a file (the caller checked the filesystem) and lie in the sandbox.
    pub fn is_valid_file(&self, path: &Vec<String>, exists_as_file: bool) -> (r: bool)
        ensures
            r == (exists_as_file && is_path_prefix(self.home_directory.deep_view(), path.deep_view())),
    {
        exists_as_file && path_has_prefix(&self.home_directory, path)
    }

    /// Records that the client disconnected: the session is closed.
    pub fn mark_dropped(&mut self)
        ensures
            final(self).connection_dropped,
            final(self).home_directory == old(self).home_directory,
            final(self).current_directory == old(self).current_directory,
    {
        self.connection_dropped = true;
    }

    /// Handles a change-directory request. `target_is_dir` reports whether
    /// the resolved target (see [`Self::resolve_request`]) exists as a
    /// directory. A target that is no directory or would leave the sandbox is
    /// refused, and the current directory stays exactly where it was; a valid
    /// target becomes the current directory and the reply announces its
    /// display path.
    pub fn cd(&mut self, path_name: &String, target_is_dir: bool) -> (reply: MessageSender)
        requires
            old(self).wf(),
        ensures
            final(self).wf(),
            final(self).home_directory == old(self).home_directory,
            final(self).connection_dropped == old(self).connection_dropped,
            ({
                let target = old(self).spec_request_target(path_name@);
                if target_is_dir && is_path_prefix(old(self).home_directory.deep_view(), target) {
                    &&& final(self).current_directory.deep_view() == target
                    &&& reply.command == MessageKind::Success
                    &&& reply.arguments@ == spec_display_path(
                        old(self).home_directory.deep_view(),
                        target,
                    )
                    &&& reply.file_path is None
                } else {
                    &&& final(self).current_directory == old(self).current_directory
                    &&& reply.command == MessageKind::Error
                    &&& reply.arguments@ == "Invalid directory: "@ + path_name@
                    &&& reply.file_path is None
                }
            }),
    {
        let target = self.resolve_request(path_name);
        if target_is_dir && path_has_prefix(&self.home_directory, &target) {
            let display = self.get_display_path(&target);
            self.current_directory = target;
            self.success_message(Some(display))
        } else {
            let mut msg: String = "Invalid directory: ".to_owned();
            msg.append(path_name.as_str());
            self.error_message(msg)
        }
    }

    /// Handles a make-directory request. `target_exists` reports whether the
    /// resolved target already exists. An existing target is refused;
    /// otherwise the decision names the component path to create, and the
    /// caller reports back through [`Self::success_message`] or
    /// [`Self::request_failure_reply`].
    pub fn mkdir(&self, dir_name: &String, target_exists: bool) -> (r: MkdirDecision)
        ensures
            ({
                let target = self.spec_request_target(dir_name@);
                if target_exists {
                    &&& r matches MkdirDecision::Reject(reply)
                    &&& (r matches MkdirDecision::Reject(reply) ==> reply.command
                        == MessageKind::Error && reply.arguments@ == "Invalid directory: "@
                        + dir_name@ && reply.file_path is None)
                } else {
                    &&& r matches MkdirDecision::Create(t)
                    &&& (r matches MkdirDecision::Create(t) ==> t.deep_view() == target)
                }
            }),
    {
        let target = self.resolve_request(dir_name);
        if target_exists {
            let mut msg: String = "Invalid directory: ".to_owned();
            msg.append(dir_name.as_str());
            MkdirDecision::Reject(self.error_message(msg))
        } else {
            MkdirDecision::Create(target)
        }
    }

    /// Handles a list request, given the entries of the current directory as
    /// the filesystem reported them: the reply carries the entry names joined
    /// by newlines, directories marked with a trailing `/`.
    pub fn ls(&self, entries: &Vec<DirEntry>) -> (reply: MessageSender)
        ensures
            reply.command == MessageKind::Success,
            reply.arguments@ == spec_listing(entries@),
            reply.file_path is None,
    {
        let mut output: String = String::new();
        let n: usize = entries.len();
        let mut i: usize = 0;
        while i < n
            invariant
                0 <= i <= n == entries@.len(),
                output@ == spec_listing(entries@.take(i as int)),
            decreases n - i,
        {
            proof {
                let t = entries@.take(i as int + 1);
                assert(t.drop_last() =~= entries@.take(i as int));
                assert(t.last() == entries@[i as int]);
            }
            if i > 0 {
                output.append("\n");
            }
            output.append(entries[i].name.as_str());
            if entries[i].is_dir {
                output.append("/");
            }
            proof {
                reveal_strlit("\n");
                reveal_strlit("/");
                assert("\n"@ =~= seq!['\n']);
                assert("/"@ =~= seq!['/']);
                assert(output@ =~= spec_listing(entries@.take(i as int + 1)));
            }
            i = i + 1;
        }
        proof {
            assert(entries@.take(n as int) =~= entries@);
        }
        self.success_message(Some(output))
    }

    /// Handles a download request. `target_is_file` reports whether the
    /// resolved target exists as a file. A target that is no file or lies
    /// outside the sandbox is refused; otherwise the decision is a `File`
    /// message naming the target's canonical textual path, whose payload the
    /// caller streams under the path's read lock.
    pub fn down(&self, file_name: &String, target_is_file: bool) -> (r: DownDecision)
        ensures
            ({
                let target = self.spec_request_target(file_name@);
                if target_is_file && is_path_prefix(self.home_directory.deep_view(), target) {
                    &&& r matches DownDecision::Send(ms)
                    &&& (r matches DownDecision::Send(ms) ==> ms.command == MessageKind::File
                        && ms.arguments@ == Seq::<char>::empty() && ms.file_path is Some
                        && ms.file_path->0@ == spec_abs_path(target))
                } else {
                    &&& r matches DownDecision::Reject(ms)
                    &&& (r matches DownDecision::Reject(ms) ==> ms.command == MessageKind::Error
                        && ms.arguments@ == "Invalid path: "@ + file_name@ && ms.file_path is None)
                }
            }),
    {
        let target = self.resolve_request(file_name);
        if self.is_valid_file(&target, target_is_file) {
            let path_text = join_components(&target);
            DownDecision::Send(
                MessageSender::new(MessageKind::File, String::new(), Some(path_text)),
            )
        } else {
            let mut msg: String = "Invalid path: ".to_owned();
            msg.append(file_name.as_str());
            DownDecision::Reject(self.error_message(msg))
        }
    }

    /// Whether an upload may proceed: the resolved target is a sandboxed
    /// existing file (it will be overwritten), or it does not exist yet and
    /// its parent is a sandboxed existing directory.
    pub open spec fn spec_up_allowed(
        self,
        target: Seq<Seq<char>>,
        target_is_file: bool,
        parent_is_dir: bool,
    ) -> bool {
        ||| (target_is_file && is_path_prefix(self.home_directory.deep_view(), target))
        ||| (!target_is_file && target.len() > 0 && parent_is_dir && is_path_prefix(
            self.home_directory.deep_view(),
            target.drop_last(),
        ))
    }

    /// Handles an upload request. `target_is_file` reports whether the
    /// resolved target exists as a file, `parent_is_dir` whether the target's
    /// parent exists as a directory. An allowed upload is answered with the
    /// ready-to-receive reply and the target's canonical textual path, into
    /// which the caller streams the payload under the path's write lock; any
    /// other target is refused.
    pub fn up(&self, file_name: &String, target_is_file: bool, parent_is_dir: bool) -> (r:
        UpDecision)
        ensures
            ({
                let target = self.spec_request_target(file_name@);
                if self.spec_up_allowed(target, target_is_file, parent_is_dir) {
                    &&& r matches UpDecision::Receive(ready, p)
                    &&& (r matches UpDecision::Receive(ready, p) ==> ready.command
                        == MessageKind::Success && ready.arguments@ == Seq::<char>::empty()
                        && ready.file_path is None && p@ == spec_abs_path(target))
                } else {
                    &&& r matches UpDecision::Reject(ms)
                    &&& (r matches UpDecision::Reject(ms) ==> ms.command == MessageKind::Error
                        && ms.arguments@ == "Invalid path: "@ + file_name@ && ms.file_path is None)
                }
            }),
    {
        let target = self.resolve_request(file_name);
        let allowed = if self.is_valid_file(&target, target_is_file) {
            true
        } else if !target_is_file && target.len() > 0 {
            let mut parent = clone_components(&target);
            parent.pop();
            proof {
                assert(parent.deep_view() =~~= target.deep_view().drop_last());
            }
            self.is_valid_directory(&parent, parent_is_dir)
        } else {
            false
        };
        if allowed {
            let path_text = join_components(&target);
            UpDecision::Receive(self.success_message(None), path_text)
        } else {
            let mut msg: String = "Invalid path: ".to_owned();
            msg.append(file_name.as_str());
            UpDecision::Reject(self.error_message(msg))
        }
    }
}

} // verus!
