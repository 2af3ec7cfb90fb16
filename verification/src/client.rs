//! The registry of attached clients, with the flag that tells each editor
//! whether it is watching.
use vstd::prelude::*;
use vstd::string::*;
use crate::error::{not_found, Error};
use crate::keep::{kept, kept_from};
use crate::text::{decimal, decimal_string, same_text};
use crate::types::{Client, ClientView};
use crate::watch::WatchService;

verus! {

/// An attached client and whether it is watching.
#[derive(Debug)]
pub struct ClientEntry {
    pub client: Client,
    pub watching: bool,
}

/// The mathematical value of a [`ClientEntry`].
pub struct ClientEntryView {
    pub client: ClientView,
    pub watching: bool,
}

impl View for ClientEntry {
    type V = ClientEntryView;

    open spec fn view(&self) -> ClientEntryView {
        ClientEntryView { client: self.client@, watching: self.watching }
    }
}

/// A message for the editor of one client.
#[derive(Debug)]
pub struct Echo {
    /// Process id of the client the message is for.
    pub pid: i32,
    /// What the message is about; empty for a message without a scope.
    pub scope: String,
    /// The message.
    pub text: String,
    /// Whether the message reports an error.
    pub error: bool,
}

/// The mathematical value of an [`Echo`].
pub struct EchoView {
    pub pid: i32,
    pub scope: Seq<char>,
    pub text: Seq<char>,
    pub error: bool,
}

impl View for Echo {
    type V = EchoView;

    open spec fn view(&self) -> EchoView {
        EchoView { pid: self.pid, scope: self.scope@, text: self.text@, error: self.error }
    }
}

/// The attached clients, each under its process id.
pub struct ClientStore {
    entries: Vec<ClientEntry>,
}

impl ClientStore {
    /// The process ids of the clients, oldest first.
    pub closed spec fn pids(&self) -> Seq<i32> {
        Seq::new(self.entries@.len(), |i: int| self.entries@[i].client.pid)
    }

    /// Whether a client with process id `pid` is attached.
    pub open spec fn contains(&self, pid: i32) -> bool {
        self.pids().contains(pid)
    }

    /// The client with process id `pid`, where it is attached.
    pub closed spec fn entry_of(&self, pid: i32) -> ClientEntryView {
        self.entries@[self.pids().index_of(pid)]@
    }

    /// No process id is attached twice.
    pub open spec fn wf(&self) -> bool {
        self.pids().no_duplicates()
    }

    /// For each client, whether its root is `root`.
    pub closed spec fn attached_to(&self, root: Seq<char>) -> Seq<bool> {
        Seq::new(self.entries@.len(), |i: int| self.entries@[i].client.root@ == root)
    }

    /// The process ids of the clients whose root is `root`, oldest first.
    pub open spec fn recipients(&self, root: Seq<char>) -> Seq<i32> {
        kept(self.pids(), self.attached_to(root))
    }

    /// A client is stored under its own process id.
    pub proof fn lemma_entry_pid(&self, pid: i32)
        requires
            self.contains(pid),
        ensures
            self.entry_of(pid).client.pid == pid,
    {
        let i = self.pids().index_of(pid);
        assert(self.pids()[i] == pid);
    }

    proof fn lemma_position(&self, i: int)
        requires
            self.wf(),
            0 <= i < self.entries@.len(),
        ensures
            self.contains(self.entries@[i].client.pid),
            self.pids().index_of(self.entries@[i].client.pid) == i,
            self.entry_of(self.entries@[i].client.pid) == self.entries@[i]@,
    {
        let pid = self.entries@[i].client.pid;
        assert(self.pids()[i] == pid);
        let j = self.pids().index_of(pid);
        assert(self.pids()[j] == pid);
    }

    /// A store without clients.
    pub fn new() -> (s: ClientStore)
        ensures
            s.wf(),
            s.pids() == Seq::<i32>::empty(),
    {
        let s = ClientStore { entries: Vec::new() };
        assert(s.pids() =~= Seq::<i32>::empty());
        s
    }

    fn position(&self, pid: i32) -> (r: Option<usize>)
        ensures
            r.is_some() == self.contains(pid),
            r.is_some() ==> r.unwrap() < self.entries@.len() && self.entries@[r.unwrap() as int].client.pid
                == pid,
            r.is_some() && self.wf() ==> r.unwrap() == self.pids().index_of(pid),
    {
        let mut i: usize = 0;
        while i < self.entries.len()
            invariant
                i <= self.entries.len(),
                forall|j: int| 0 <= j < i ==> self.pids()[j] != pid,
            decreases self.entries.len() - i,
        {
            if self.entries[i].client.pid == pid {
                assert(self.pids()[i as int] == pid);
                proof {
                    if self.wf() {
                        self.lemma_position(i as int);
                    }
                }
                return Some(i);
            }
            i = i + 1;
        }
        None
    }

    /// Whether a client with process id `pid` is attached.
    pub fn contains_key(&self, pid: i32) -> (r: bool)
        ensures
            r == self.contains(pid),
    {
        self.position(pid).is_some()
    }

    /// Attaches a client, not watching. A process id that is attached
    /// already keeps its client.
    pub fn add(&mut self, client: &Client)
        requires
            old(self).wf(),
        ensures
            final(self).wf(),
            forall|p: i32| #[trigger] final(self).contains(p) <==> old(self).contains(p) || p == client.pid,
            forall|p: i32| #[trigger]
                old(self).contains(p) ==> final(self).entry_of(p) == old(self).entry_of(p),
            !old(self).contains(client.pid) ==> final(self).entry_of(client.pid) == (
            ClientEntryView { client: client@, watching: false }) && final(self).pids() == old(self).pids().push(client.pid),
            old(self).contains(client.pid) ==> final(self).pids() == old(self).pids(),
    {
        if self.position(client.pid).is_some() {
            return ;
        }
        let ghost n = self.entries@.len() as int;
        self.entries.push(ClientEntry { client: client.clone(), watching: false });
        proof {
            assert(self.pids() =~= old(self).pids().push(client.pid));
            self.lemma_position(n);
            assert forall|p: i32| #[trigger] old(self).contains(p) implies self.contains(p)
                && self.entry_of(p) == old(self).entry_of(p) by {
                let j = old(self).pids().index_of(p);
                assert(self.pids()[j] == p);
                self.lemma_position(j);
            }
            assert forall|p: i32| #[trigger] self.contains(p) implies old(self).contains(p) || p
                == client.pid by {
                let j = self.pids().index_of(p);
                if j < n {
                    assert(old(self).pids()[j] == p);
                }
            }
        }
    }

    /// The client with process id `pid`; an error where it is not attached.
    pub fn get(&self, pid: &i32) -> (r: Result<&ClientEntry, Error>)
        requires
            self.wf(),
        ensures
            r.is_ok() == self.contains(*pid),
            r.is_ok() ==> r.unwrap()@ == self.entry_of(*pid),
            r.is_err() ==> r.unwrap_err()@ == not_found("Client"@, decimal(*pid as int)),
    {
        match self.position(*pid) {
            Some(i) => Ok(&self.entries[i]),
            None => {
                let key = decimal_string(*pid as i64);
                Err(Error::missing("Client", key.as_str()))
            },
        }
    }

    /// Detaches the client with process id `pid`, if it is attached.
    pub fn remove(&mut self, pid: i32) -> (r: Option<ClientEntry>)
        requires
            old(self).wf(),
        ensures
            final(self).wf(),
            r.is_some() == old(self).contains(pid),
            r.is_some() ==> r.unwrap()@ == old(self).entry_of(pid),
            forall|p: i32| #[trigger] final(self).contains(p) <==> old(self).contains(p) && p != pid,
            forall|p: i32| #[trigger]
                final(self).contains(p) ==> final(self).entry_of(p) == old(self).entry_of(p),
    {
        match self.position(pid) {
            Some(i) => {
                let e = self.entries.remove(i);
                proof {
                    let ps = old(self).pids();
                    assert(self.pids() =~= ps.remove(i as int));
                    assert forall|p: i32| #[trigger] self.contains(p) implies old(self).contains(p)
                        && p != pid && self.entry_of(p) == old(self).entry_of(p) by {
                        let j = self.pids().index_of(p);
                        assert(self.pids()[j] == p);
                        if j < i {
                            assert(ps[j] == p);
                            old(self).lemma_position(j);
                        } else {
                            assert(ps[j + 1] == p);
                            old(self).lemma_position(j + 1);
                        }
                    }
                    assert forall|p: i32| old(self).contains(p) && p != pid implies #[trigger]
                        self.contains(p) by {
                        let x = ps.index_of(p);
                        if x < i {
                            assert(self.pids()[x] == p);
                        } else {
                            assert(self.pids()[x - 1] == p);
                        }
                    }
                }
                Some(e)
            },
            None => None,
        }
    }

    /// Sets the watching flag of the client with process id `pid`; an
    /// error, and no change, where it is not attached. Setting the flag to
    /// what it is changes nothing.
    pub fn set_watching(&mut self, pid: i32, watching: bool) -> (r: Result<(), Error>)
        requires
            old(self).wf(),
        ensures
            final(self).wf(),
            final(self).pids() == old(self).pids(),
            r.is_ok() == old(self).contains(pid),
            r.is_err() ==> r.unwrap_err()@ == not_found("Client"@, decimal(pid as int)),
            forall|p: i32| #[trigger]
                old(self).contains(p) ==> final(self).entry_of(p) == (ClientEntryView {
                    watching: if p == pid {
                        watching
                    } else {
                        old(self).entry_of(p).watching
                    },
                    ..old(self).entry_of(p)
                }),
    {
        match self.position(pid) {
            Some(i) => {
                self.entries[i].watching = watching;
                proof {
                    assert(self.pids() =~= old(self).pids());
                    assert forall|p: i32| #[trigger] old(self).contains(p) implies self.entry_of(p)
                        == (ClientEntryView {
                        watching: if p == pid {
                            watching
                        } else {
                            old(self).entry_of(p).watching
                        },
                        ..old(self).entry_of(p)
                    }) by {
                        let j = old(self).pids().index_of(p);
                        assert(old(self).pids()[j] == p);
                    }
                }
                Ok(())
            },
            None => {
                let key = decimal_string(pid as i64);
                Err(Error::missing("Client", key.as_str()))
            },
        }
    }

    /// Brings the watching flags of the clients at `root` in line with the
    /// watchables that are registered for that root: a client is watching
    /// where one of them is its own. Clients at other roots keep their flag.
    pub fn sync(&mut self, root: &str, service: &WatchService)
        requires
            old(self).wf(),
            service.wf(),
        ensures
            final(self).wf(),
            final(self).pids() == old(self).pids(),
            forall|p: i32| #[trigger]
                old(self).contains(p) ==> final(self).entry_of(p) == (ClientEntryView {
                    watching: if old(self).entry_of(p).client.root == root@ {
                        service.owned_by(p)
                    } else {
                        old(self).entry_of(p).watching
                    },
                    ..old(self).entry_of(p)
                }),
    {
        let n = self.entries.len();
        let mut i: usize = 0;
        while i < n
            invariant
                service.wf(),
                n == self.entries@.len(),
                n == old(self).entries@.len(),
                i <= n,
                forall|j: int|
                    0 <= j < n ==> (#[trigger] self.entries@[j]).client == old(self).entries@[j].client,
                forall|j: int|
                    i <= j < n ==> (#[trigger] self.entries@[j]).watching == old(self).entries@[j].watching,
                forall|j: int|
                    0 <= j < i ==> (#[trigger] self.entries@[j]).watching == (if old(self).entries@[j].client.root@ == root@ {
                        service.owned_by(old(self).entries@[j].client.pid)
                    } else {
                        old(self).entries@[j].watching
                    }),
            decreases n - i,
        {
            if same_text(self.entries[i].client.root.as_str(), root) {
                let owned = service.has_listener_of(self.entries[i].client.pid);
                self.entries[i].watching = owned;
            }
            i = i + 1;
        }
        proof {
            assert(self.pids() =~= old(self).pids());
            assert forall|p: i32| #[trigger] old(self).contains(p) implies self.entry_of(p) == (
            ClientEntryView {
                watching: if old(self).entry_of(p).client.root == root@ {
                    service.owned_by(p)
                } else {
                    old(self).entry_of(p).watching
                },
                ..old(self).entry_of(p)
            }) by {
                let j = old(self).pids().index_of(p);
                assert(old(self).pids()[j] == p);
            }
        }
    }

    /// The message `text` about `name` for every client whose root is
    /// `root`, oldest client first.
    pub fn echo_msg(&self, root: &str, name: &str, text: &str) -> (r: Vec<Echo>)
        ensures
            r.len() == self.recipients(root@).len(),
            forall|i: int|
                0 <= i < r.len() ==> (#[trigger] r[i])@ == (EchoView {
                    pid: self.recipients(root@)[i],
                    scope: name@,
                    text: text@,
                    error: false,
                }),
    {
        let mut r: Vec<Echo> = Vec::new();
        let ghost pids = self.pids();
        let ghost flags = self.attached_to(root@);
        let ghost mut sent: Seq<i32> = Seq::empty();
        let n = self.entries.len();
        let mut i: usize = 0;
        assert(sent + kept_from(pids, flags, 0) =~= kept(pids, flags));
        while i < n
            invariant
                n == self.entries@.len(),
                pids == self.pids(),
                flags == self.attached_to(root@),
                i <= n,
                sent + kept_from(pids, flags, i as int) == kept(pids, flags),
                r.len() == sent.len(),
                forall|j: int|
                    0 <= j < r.len() ==> (#[trigger] r[j])@ == (EchoView {
                        pid: sent[j],
                        scope: name@,
                        text: text@,
                        error: false,
                    }),
            decreases n - i,
        {
            if same_text(self.entries[i].client.root.as_str(), root) {
                r.push(
                    Echo {
                        pid: self.entries[i].client.pid,
                        scope: String::from_str(name),
                        text: String::from_str(text),
                        error: false,
                    },
                );
                proof {
                    assert(sent.push(pids[i as int]) + kept_from(pids, flags, i + 1) =~= sent
                        + kept_from(pids, flags, i as int));
                    sent = sent.push(pids[i as int]);
                }
            }
            i = i + 1;
        }
        assert(sent =~= kept(pids, flags));
        r
    }

    /// The error message `text` for the client with process id `pid`; an
    /// error where it is not attached.
    pub fn echo_err(&self, pid: i32, text: &str) -> (r: Result<Echo, Error>)
        ensures
            r.is_ok() == self.contains(pid),
            r.is_ok() ==> r.unwrap()@ == (EchoView {
                pid,
                scope: Seq::empty(),
                text: text@,
                error: true,
            }),
            r.is_err() ==> r.unwrap_err()@ == not_found("Client"@, decimal(pid as int)),
    {
        if self.contains_key(pid) {
            Ok(Echo { pid, scope: String::new(), text: String::from_str(text), error: true })
        } else {
            let key = decimal_string(pid as i64);
            Err(Error::missing("Client", key.as_str()))
        }
    }

    /// What is pushed to the editors after a request was answered: for
    /// every client, oldest first, its process id and whether it is
    /// watching.
    pub fn sync_client_state(&self) -> (r: Vec<(i32, bool)>)
        requires
            self.wf(),
        ensures
            r.len() == self.pids().len(),
            forall|i: int|
                0 <= i < r.len() ==> (#[trigger] r[i]).0 == self.pids()[i] && r[i].1
                    == self.entry_of(self.pids()[i]).watching,
    {
        let mut r: Vec<(i32, bool)> = Vec::new();
        let n = self.entries.len();
        let mut i: usize = 0;
        while i < n
            invariant
                self.wf(),
                n == self.entries@.len(),
                i <= n,
                r.len() == i,
                forall|j: int|
                    0 <= j < i ==> (#[trigger] r[j]).0 == self.pids()[j] && r[j].1
                        == self.entry_of(self.pids()[j]).watching,
            decreases n - i,
        {
            proof {
                self.lemma_position(i as int);
            }
            r.push((self.entries[i].client.pid, self.entries[i].watching));
            i = i + 1;
        }
        r
    }
}

} // verus!
