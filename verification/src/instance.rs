//! One running plugin, as far as the host has to remember it: the requests
//! that were sent to it and are not answered yet.
//!
//! The process itself, its pipes and the slots in which callers wait belong to
//! the runner. The runner asks this module what to write and what to do with
//! each line it reads.
use vstd::prelude::*;
use crate::error::PluginError;
use crate::protocol::{
    decode_text, encode_text, JsonRpcNotification, JsonRpcRequest, JsonRpcResponse, MessageView,
    PluginMessage, PluginRequestId, RequestIdView,
};

verus! {

/// What the reader has to do with a line that it read from a plugin.
#[derive(Debug, Clone, PartialEq)]
pub enum ReaderEvent {
    /// A response to a pending request: hand it to the caller that waits
    /// under its identifier.
    Resolved(JsonRpcResponse),
    /// A response that no pending request matches: drop it.
    Unmatched(JsonRpcResponse),
    /// A notification: note it, nothing more.
    Notification(JsonRpcNotification),
    /// A request from the plugin to the host, which the host does not serve:
    /// warn, send no answer.
    UnsupportedRequest(JsonRpcRequest),
    /// A line that is no message: pass over it.
    Ignored,
}

/// The requests in flight to one plugin.
pub struct PluginInstance {
    pending: Vec<PluginRequestId>,
}

/// Whether a list of identifiers holds `id`.
pub open spec fn holds_id(ids: Seq<PluginRequestId>, id: RequestIdView) -> bool {
    exists|i: int| 0 <= i < ids.len() && (#[trigger] ids[i])@ == id
}

impl PluginInstance {
    /// The identifiers of the requests that wait for a response.
    pub closed spec fn pending(&self) -> Set<RequestIdView> {
        Set::new(|id: RequestIdView| holds_id(self.pending@, id))
    }

    /// The table holds no identifier twice.
    pub closed spec fn wf(&self) -> bool {
        forall|i: int, j: int|
            0 <= i < j < self.pending@.len() ==> (#[trigger] self.pending@[i])@ != (
            #[trigger] self.pending@[j])@
    }

    /// An instance with nothing in flight.
    pub fn new() -> (r: PluginInstance)
        ensures
            r.wf(),
            r.pending() == Set::<RequestIdView>::empty(),
    {
        let r = PluginInstance { pending: Vec::new() };
        assert(r.pending() =~= Set::<RequestIdView>::empty());
        r
    }

    /// Where `id` stands in the table, if it is pending.
    fn position(&self, id: &PluginRequestId) -> (r: Option<usize>)
        ensures
            match r {
                Some(i) => i < self.pending@.len() && self.pending@[i as int]@ == id@,
                None => !self.pending().contains(id@),
            },
    {
        let mut i: usize = 0;
        while i < self.pending.len()
            invariant
                i <= self.pending@.len(),
                forall|k: int| 0 <= k < i ==> (#[trigger] self.pending@[k])@ != id@,
            decreases self.pending@.len() - i,
        {
            if self.pending[i].same_as(id) {
                return Some(i);
            }
            i += 1;
        }
        None
    }

    /// Whether a request under `id` waits for a response.
    pub fn is_pending(&self, id: &PluginRequestId) -> (r: bool)
        ensures
            r == self.pending().contains(id@),
    {
        match self.position(id) {
            Some(i) => {
                assert(holds_id(self.pending@, id@));
                true
            },
            None => false,
        }
    }

    /// Registers a request as pending and gives the line to write to the
    /// plugin. A request without an identifier is refused and nothing changes.
    /// A second request under an identifier that is already pending takes the
    /// place of the first.
    pub fn send_request(&mut self, req: &JsonRpcRequest) -> (r: Result<String, PluginError>)
        requires
            old(self).wf(),
        ensures
            final(self).wf(),
            match req@.id {
                None => r == Err::<String, PluginError>(PluginError::MissingRequestId)
                    && final(self).pending() == old(self).pending(),
                Some(id) => r is Ok && r->Ok_0@ == encode_text(MessageView::Request(req@))
                    && final(self).pending() == old(self).pending().insert(id),
            },
    {
        let id = match &req.id {
            Some(id) => id.duplicate(),
            None => {
                return Err(PluginError::MissingRequestId);
            },
        };
        let ghost before = self.pending@;
        if self.position(&id).is_none() {
            self.pending.push(id);
            assert forall|x: RequestIdView|
                holds_id(self.pending@, x) <==> (holds_id(before, x) || x == id@) by {
                if holds_id(before, x) {
                    let k = choose|k: int| 0 <= k < before.len() && (#[trigger] before[k])@ == x;
                    assert(self.pending@[k]@ == x);
                }
                if x == id@ {
                    assert(self.pending@[before.len() as int]@ == x);
                }
            }
        } else {
            assert(holds_id(before, id@));
        }
        assert(self.pending() =~= old(self).pending().insert(id@));
        Ok(req.to_line())
    }

    /// Takes `id` out of the table.
    fn settle(&mut self, at: usize)
        requires
            old(self).wf(),
            at < old(self).pending@.len(),
        ensures
            final(self).wf(),
            final(self).pending() == old(self).pending().remove(old(self).pending@[at as int]@),
    {
        let ghost before = self.pending@;
        self.pending.remove(at);
        assert(self.pending@ == before.remove(at as int));
        assert forall|x: RequestIdView|
            holds_id(self.pending@, x) <==> (holds_id(before, x) && x != before[at as int]@) by {
            if holds_id(self.pending@, x) {
                let k = choose|k: int| 0 <= k < self.pending@.len() && (#[trigger] self.pending@[k])@ == x;
                if k < at {
                    assert(before[k]@ == x);
                } else {
                    assert(before[k + 1]@ == x);
                }
            }
            if holds_id(before, x) && x != before[at as int]@ {
                let k = choose|k: int| 0 <= k < before.len() && (#[trigger] before[k])@ == x;
                if k < at {
                    assert(self.pending@[k]@ == x);
                } else {
                    assert(self.pending@[k - 1]@ == x);
                }
            }
        }
        assert(self.pending() =~= old(self).pending().remove(before[at as int]@));
    }

    /// Decides what becomes of a line read from the plugin. A response whose
    /// identifier is pending settles that request; any other response is
    /// unmatched. Notifications and requests change nothing, and neither does
    /// a line that is no message.
    pub fn handle_line(&mut self, line: &str) -> (event: ReaderEvent)
        requires
            old(self).wf(),
        ensures
            final(self).wf(),
            match decode_text(line@) {
                Some(MessageView::Response(r)) => if r.id is Some && old(self).pending().contains(
                    r.id.unwrap(),
                ) {
                    &&& event matches ReaderEvent::Resolved(resp)
                    &&& resp@ == r
                    &&& final(self).pending() == old(self).pending().remove(r.id.unwrap())
                } else {
                    &&& event matches ReaderEvent::Unmatched(resp)
                    &&& resp@ == r
                    &&& final(self).pending() == old(self).pending()
                },
                Some(MessageView::Notification(n)) => {
                    &&& event matches ReaderEvent::Notification(note)
                    &&& note@ == n
                    &&& final(self).pending() == old(self).pending()
                },
                Some(MessageView::Request(q)) => {
                    &&& event matches ReaderEvent::UnsupportedRequest(req)
                    &&& req@ == q
                    &&& final(self).pending() == old(self).pending()
                },
                None => event == ReaderEvent::Ignored && final(self).pending() == old(
                    self,
                ).pending(),
            },
    {
        match PluginMessage::from_line(line) {
            Some(PluginMessage::Response(resp)) => {
                let at = match &resp.id {
                    Some(id) => self.position(id),
                    None => None,
                };
                match at {
                    Some(i) => {
                        assert(holds_id(self.pending@, resp@.id.unwrap()));
                        self.settle(i);
                        ReaderEvent::Resolved(resp)
                    },
                    None => ReaderEvent::Unmatched(resp),
                }
            },
            Some(PluginMessage::Notification(note)) => ReaderEvent::Notification(note),
            Some(PluginMessage::Request(req)) => ReaderEvent::UnsupportedRequest(req),
            None => ReaderEvent::Ignored,
        }
    }
}

} // verus!
