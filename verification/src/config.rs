use vstd::prelude::*;
use vstd::string::StringExecFns;

verus! {

/// One authorized destination: the backend chat target, an optional
/// sub-thread, and the shared secret that callers must present.
#[derive(Debug)]
pub struct Channel {
    pub chat: String,
    pub thread: Option<String>,
    pub pass: String,
}

impl Channel {
    /// Credential check: exact, byte-for-byte equality of the presented
    /// secret against the channel's configured one.
    pub fn authorize(&self, presented_secret: &String) -> (r: bool)
        ensures
            r == (self.pass@ == presented_secret@),
    {
        self.pass == *presented_secret
    }
}

/// The channel registry as loaded at startup: the backend token and the
/// named channels. Read-only for the life of the process.
#[derive(Debug)]
pub struct ConfigToml {
    pub tel_token: String,
    pub channels: Vec<(String, Channel)>,
}

impl ConfigToml {
    /// Registry invariant: channel names are unique keys.
    pub open spec fn wf(self) -> bool {
        forall|i: int, j: int|
            0 <= i < j < self.channels@.len()
                ==> self.channels@[i].0@ != self.channels@[j].0@
    }

    pub open spec fn contains_name(self, name: Seq<char>) -> bool {
        exists|i: int|
            0 <= i < self.channels@.len() && #[trigger] self.channels@[i].0@ == name
    }

    /// The channel registered under `name`, if any. With unique keys the
    /// witness index is unique, so this is a function of the registry.
    pub open spec fn spec_lookup(self, name: Seq<char>) -> Option<Channel> {
        if self.contains_name(name) {
            let i = choose|i: int|
                0 <= i < self.channels@.len() && #[trigger] self.channels@[i].0@ == name;
            Some(self.channels@[i].1)
        } else {
            None
        }
    }

    /// The channel that a caller presenting (`name`, `pass`) is granted:
    /// `None` both when no channel has that name and when the secret is
    /// wrong, so the two cases are indistinguishable downstream.
    pub open spec fn spec_authorize(self, name: Seq<char>, pass: Seq<char>) -> Option<Channel> {
        match self.spec_lookup(name) {
            Some(ch) => if ch.pass@ == pass {
                Some(ch)
            } else {
                None
            },
            None => None,
        }
    }

    /// Runtime check of the registry invariant, for callers that assemble
    /// a registry from unchecked input.
    pub fn check_wf(&self) -> (b: bool)
        ensures
            b == self.wf(),
    {
        let n = self.channels.len();
        let mut i: usize = 0;
        while i < n
            invariant
                n == self.channels@.len(),
                0 <= i <= n,
                forall|p: int, q: int|
                    0 <= p < q < self.channels@.len() && p < i
                        ==> self.channels@[p].0@ != self.channels@[q].0@,
            decreases n - i,
        {
            let mut j: usize = i + 1;
            while j < n
                invariant
                    n == self.channels@.len(),
                    0 <= i < j <= n,
                    forall|p: int, q: int|
                        0 <= p < q < self.channels@.len() && p < i
                            ==> self.channels@[p].0@ != self.channels@[q].0@,
                    forall|q: int|
                        i < q < j ==> self.channels@[i as int].0@ != self.channels@[q].0@,
                decreases n - j,
            {
                if self.channels[i].0 == self.channels[j].0 {
                    return false;
                }
                j += 1;
            }
            i += 1;
        }
        true
    }

    /// Registry lookup by channel name.
    pub fn lookup<'a>(&'a self, name: &String) -> (r: Option<&'a Channel>)
        requires
            self.wf(),
        ensures
            r matches Some(ch) ==> self.spec_lookup(name@) == Some(*ch),
            r is None ==> self.spec_lookup(name@) is None,
    {
        let n = self.channels.len();
        let mut i: usize = 0;
        while i < n
            invariant
                self.wf(),
                n == self.channels@.len(),
                0 <= i <= n,
                forall|k: int| 0 <= k < i ==> self.channels@[k].0@ != name@,
            decreases n - i,
        {
            if self.channels[i].0 == *name {
                proof {
                    assert(self.channels@[i as int].0@ == name@);
                    let j = choose|j: int|
                        0 <= j < self.channels@.len() && #[trigger] self.channels@[j].0@ == name@;
                    if j < i as int {
                        assert(self.channels@[j].0@ != self.channels@[i as int].0@);
                    } else if (i as int) < j {
                        assert(self.channels@[i as int].0@ != self.channels@[j].0@);
                    }
                }
                return Some(&self.channels[i].1);
            }
            i += 1;
        }
        proof {
            if self.contains_name(name@) {
                let k = choose|k: int|
                    0 <= k < self.channels@.len() && #[trigger] self.channels@[k].0@ == name@;
                assert(self.channels@[k].0@ != name@);
            }
        }
        None
    }
}

/// The backend's "send text message" endpoint for a given token.
pub fn send_message_url(token: &str) -> (r: String)
    ensures
        r@ == "https://api.telegram.org/bot"@ + token@ + "/sendMessage"@,
{
    let mut url = "https://api.telegram.org/bot".to_owned();
    url.append(token);
    url.append("/sendMessage");
    url
}

/// The backend's "send document" endpoint for a given token.
pub fn send_document_url(token: &str) -> (r: String)
    ensures
        r@ == "https://api.telegram.org/bot"@ + token@ + "/sendDocument"@,
{
    let mut url = "https://api.telegram.org/bot".to_owned();
    url.append(token);
    url.append("/sendDocument");
    url
}

} // verus!
