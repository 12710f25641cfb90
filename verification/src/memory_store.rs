//! Ephemeral in-memory tool output store.

use vstd::prelude::*;
use vstd::string::*;

use crate::output_id::{OutputIdGenerationError, ToolOutputId};
use crate::output_store::{
    ToolOutputStoreError, ToolOutputStoreReadRequest, ToolOutputStoreWindow,
    ToolOutputWriteRequest, ToolOutputWriteResult, WriteFailureSource,
};
use crate::policy::ToolOutputPolicy;
use crate::windowing::{is_read_outcome, is_window_of, prefix_window, read_window, utf8_bytes};

verus! {

/// One retained output as the store's contracts see it.
pub struct StoredOutputView {
    /// Tool that produced the output.
    pub tool_name: Seq<char>,
    /// Serialized output text.
    pub content: Seq<char>,
}

/// The observable state of an in-memory store.
pub struct OutputStoreView {
    /// Retained outputs by id text.
    pub outputs: Map<Seq<char>, StoredOutputView>,
    /// Aggregate bytes currently reserved by retained outputs.
    pub reserved_bytes: nat,
    /// Whether the next write that reserves budget is made to fail.
    pub fail_next_write: bool,
}

struct StoredToolOutput {
    output_id: ToolOutputId,
    tool_name: String,
    content: String,
}

spec fn stored_view(entry: StoredToolOutput) -> StoredOutputView {
    StoredOutputView { tool_name: entry.tool_name@, content: entry.content@ }
}

spec fn entries_view(entries: Seq<StoredToolOutput>) -> Map<Seq<char>, StoredOutputView>
    decreases entries.len(),
{
    if entries.len() == 0 {
        Map::empty()
    } else {
        entries_view(entries.drop_last()).insert(
            entries.last().output_id@,
            stored_view(entries.last()),
        )
    }
}

spec fn stored_bytes(entries: Seq<StoredToolOutput>) -> nat
    decreases entries.len(),
{
    if entries.len() == 0 {
        0
    } else {
        stored_bytes(entries.drop_last()) + utf8_bytes(entries.last().content@).len()
    }
}

spec fn ids_unique(entries: Seq<StoredToolOutput>) -> bool {
    forall|i: int, j: int|
        0 <= i < entries.len() && 0 <= j < entries.len() && i != j ==> entries[i].output_id@
            != entries[j].output_id@
}

proof fn lemma_entries_view(entries: Seq<StoredToolOutput>)
    requires
        ids_unique(entries),
    ensures
        forall|i: int|
            0 <= i < entries.len() ==> #[trigger] entries_view(entries).dom().contains(
                entries[i].output_id@,
            ) && entries_view(entries)[entries[i].output_id@] == stored_view(entries[i]),
        forall|k: Seq<char>|
            #[trigger] entries_view(entries).dom().contains(k) ==> exists|i: int|
                0 <= i < entries.len() && entries[i].output_id@ == k,
    decreases entries.len(),
{
    if entries.len() > 0 {
        let prefix = entries.drop_last();
        assert(ids_unique(prefix)) by {
            assert forall|i: int, j: int|
                0 <= i < prefix.len() && 0 <= j < prefix.len() && i != j implies prefix[i].output_id@
                != prefix[j].output_id@ by {
                assert(prefix[i] == entries[i]);
                assert(prefix[j] == entries[j]);
            }
        }
        lemma_entries_view(prefix);
        let last = entries.len() - 1;
        assert(entries_view(entries) == entries_view(prefix).insert(
            entries[last].output_id@,
            stored_view(entries[last]),
        ));
        assert forall|i: int| 0 <= i < entries.len() implies #[trigger] entries_view(
            entries,
        ).dom().contains(entries[i].output_id@) && entries_view(entries)[entries[i].output_id@]
            == stored_view(entries[i]) by {
            if i < last {
                assert(prefix[i] == entries[i]);
                assert(entries_view(prefix).dom().contains(prefix[i].output_id@));
                assert(entries[i].output_id@ != entries[last].output_id@);
            }
        }
        assert forall|k: Seq<char>| #[trigger]
            entries_view(entries).dom().contains(k) implies exists|i: int|
            0 <= i < entries.len() && entries[i].output_id@ == k by {
            if k != entries[last].output_id@ {
                assert(entries_view(prefix).dom().contains(k));
                let i = choose|i: int| 0 <= i < prefix.len() && prefix[i].output_id@ == k;
                assert(entries[i] == prefix[i]);
            }
        }
    }
}

proof fn lemma_stored_bytes_bound(entries: Seq<StoredToolOutput>, i: int)
    requires
        0 <= i < entries.len(),
    ensures
        utf8_bytes(entries[i].content@).len() <= stored_bytes(entries),
    decreases entries.len(),
{
    if i < entries.len() - 1 {
        lemma_stored_bytes_bound(entries.drop_last(), i);
        assert(entries.drop_last()[i] == entries[i]);
    }
}

/// Ephemeral in-memory output store scoped to one active runtime run.
pub struct InMemoryToolOutputStore {
    entries: Vec<StoredToolOutput>,
    reserved_bytes: usize,
    fail_next_write: bool,
}

impl View for InMemoryToolOutputStore {
    type V = OutputStoreView;

    closed spec fn view(&self) -> OutputStoreView {
        OutputStoreView {
            outputs: entries_view(self.entries@),
            reserved_bytes: self.reserved_bytes as nat,
            fail_next_write: self.fail_next_write,
        }
    }
}

/// The error a write gets when the aggregate budget cannot take `requested`
/// more bytes on top of `current` reserved ones.
pub open spec fn aggregate_exhausted(
    requested: usize,
    current: nat,
    policy: ToolOutputPolicy,
    window: ToolOutputStoreWindow,
) -> ToolOutputStoreError {
    let limit = policy@.aggregate_limit_bytes;
    ToolOutputStoreError::AggregateExhausted {
        requested_bytes: requested,
        available_bytes: if current <= limit {
            (limit - current) as usize
        } else {
            0
        },
        limit_bytes: limit,
        window,
    }
}

/// How a successful write changes a store: the output is retained under an
/// id the store did not hold, its bytes are reserved, and nothing else
/// changes.
pub open spec fn is_successful_write(
    pre: OutputStoreView,
    post: OutputStoreView,
    request: ToolOutputWriteRequest,
    written: ToolOutputWriteResult,
) -> bool {
    &&& !pre.outputs.dom().contains(written.output_id@)
    &&& post.outputs == pre.outputs.insert(
        written.output_id@,
        StoredOutputView { tool_name: request.tool_name@, content: request.content@ },
    )
    &&& post.reserved_bytes == pre.reserved_bytes + utf8_bytes(request.content@).len()
    &&& post.fail_next_write == pre.fail_next_write
}

/// A read gives back what a write wrote: after a successful write, the id
/// it returned names exactly the written tool name and content, so a read
/// of that id windows the written content; every output retained before is
/// still retained unchanged, and the write's own id was new.
pub proof fn lemma_read_after_write(
    pre: OutputStoreView,
    post: OutputStoreView,
    request: ToolOutputWriteRequest,
    written: ToolOutputWriteResult,
)
    requires
        is_successful_write(pre, post, request, written),
    ensures
        post.outputs.dom().contains(written.output_id@),
        post.outputs[written.output_id@].tool_name == request.tool_name@,
        post.outputs[written.output_id@].content == request.content@,
        forall|id: Seq<char>|
            #[trigger] pre.outputs.dom().contains(id) ==> id != written.output_id@
                && post.outputs.dom().contains(id) && post.outputs[id] == pre.outputs[id],
        post.outputs.dom() == pre.outputs.dom().insert(written.output_id@),
{
    assert(post.outputs.dom() =~= pre.outputs.dom().insert(written.output_id@));
}

impl InMemoryToolOutputStore {
    /// The store's internal bookkeeping is consistent: ids are unique, and
    /// the reserved byte count is the total size of the retained outputs.
    pub closed spec fn wf(&self) -> bool {
        &&& ids_unique(self.entries@)
        &&& self.reserved_bytes == stored_bytes(self.entries@)
    }

    /// Every consistent store reserves exactly what it retains: adding an
    /// output adds its size, and nothing else changes the reservation.
    pub proof fn lemma_reservation_covers_retained_outputs(&self)
        requires
            self.wf(),
        ensures
            forall|id: Seq<char>|
                #[trigger] self@.outputs.dom().contains(id) ==> utf8_bytes(
                    self@.outputs[id].content,
                ).len() <= self@.reserved_bytes,
            self@.outputs == Map::<Seq<char>, StoredOutputView>::empty() ==> self@.reserved_bytes == 0,
    {
        lemma_entries_view(self.entries@);
        assert forall|id: Seq<char>| #[trigger]
            self@.outputs.dom().contains(id) implies utf8_bytes(self@.outputs[id].content).len()
            <= self@.reserved_bytes by {
            let i = choose|i: int|
                0 <= i < self.entries@.len() && self.entries@[i].output_id@ == id;
            lemma_stored_bytes_bound(self.entries@, i);
        }
        if self.entries@.len() > 0 {
            assert(self@.outputs.dom().contains(self.entries@[0].output_id@));
        }
    }

    /// Builds an empty in-memory output store.
    pub fn new() -> (store: InMemoryToolOutputStore)
        ensures
            store.wf(),
            store@.outputs == Map::<Seq<char>, StoredOutputView>::empty(),
            store@.reserved_bytes == 0,
            !store@.fail_next_write,
    {
        InMemoryToolOutputStore { entries: Vec::new(), reserved_bytes: 0, fail_next_write: false }
    }

    /// Returns the aggregate bytes currently reserved by stored outputs.
    pub fn reserved_bytes(&self) -> (bytes: usize)
        ensures
            bytes == self@.reserved_bytes,
    {
        self.reserved_bytes
    }

    /// Causes the next write that reserves budget to fail afterwards.
    pub fn fail_next_write_for_test(&mut self)
        requires
            old(self).wf(),
        ensures
            final(self).wf(),
            final(self)@ == (OutputStoreView { fail_next_write: true, ..old(self)@ }),
    {
        self.fail_next_write = true;
    }

    fn find(&self, output_id: &ToolOutputId) -> (found: Option<usize>)
        ensures
            found matches Some(i) ==> i < self.entries@.len() && self.entries@[i as int].output_id@
                == output_id@,
            found is None ==> forall|i: int|
                0 <= i < self.entries@.len() ==> self.entries@[i].output_id@ != output_id@,
    {
        let mut i: usize = 0;
        while i < self.entries.len()
            invariant
                i <= self.entries@.len(),
                forall|j: int| 0 <= j < i ==> self.entries@[j].output_id@ != output_id@,
            decreases self.entries@.len() - i,
        {
            if self.entries[i].output_id.same_as(output_id) {
                return Some(i);
            }
            i = i + 1;
        }
        None
    }

    /// Reserves `bytes` of aggregate budget, or reports how little is left.
    fn reserve(
        &mut self,
        bytes: usize,
        policy: &ToolOutputPolicy,
        window: ToolOutputStoreWindow,
    ) -> (result: Result<(), ToolOutputStoreError>)
        ensures
            final(self).entries@ == old(self).entries@,
            final(self).fail_next_write == old(self).fail_next_write,
            old(self).reserved_bytes + bytes <= policy@.aggregate_limit_bytes ==> {
                &&& result is Ok
                &&& final(self).reserved_bytes == old(self).reserved_bytes + bytes
            },
            old(self).reserved_bytes + bytes > policy@.aggregate_limit_bytes ==> {
                &&& result == Err::<(), ToolOutputStoreError>(
                    aggregate_exhausted(bytes, old(self).reserved_bytes as nat, *policy, window),
                )
                &&& final(self).reserved_bytes == old(self).reserved_bytes
            },
    {
        let current = self.reserved_bytes;
        let limit = policy.aggregate_limit_bytes();
        let next = match current.checked_add(bytes) {
            Some(next) => next,
            None => {
                return Err(aggregate_exhausted_error(bytes, current, policy, window));
            },
        };
        if next > limit {
            return Err(aggregate_exhausted_error(bytes, current, policy, window));
        }
        self.reserved_bytes = next;
        Ok(())
    }

    /// Returns `bytes` of reserved aggregate budget.
    fn rollback(&mut self, bytes: usize)
        requires
            old(self).reserved_bytes >= bytes,
        ensures
            final(self).entries@ == old(self).entries@,
            final(self).fail_next_write == old(self).fail_next_write,
            final(self).reserved_bytes == old(self).reserved_bytes - bytes,
    {
        self.reserved_bytes = self.reserved_bytes - bytes;
    }

    /// Stores complete serialized output under the id generated for it and
    /// returns its first window.
    ///
    /// An output over the per-output limit, or one the aggregate budget
    /// cannot take, is refused with its first window and leaves the store
    /// unchanged. A write that reserved budget and then fails (an injected
    /// failure, an id that could not be generated, or an id the store
    /// already holds) gives the budget back. Otherwise the output is
    /// retained under the generated id.
    pub fn write(
        &mut self,
        request: ToolOutputWriteRequest,
        generated_id: Result<ToolOutputId, OutputIdGenerationError>,
    ) -> (result: Result<ToolOutputWriteResult, ToolOutputStoreError>)
        requires
            old(self).wf(),
            utf8_bytes(request.content@).len() <= usize::MAX,
        ensures
            final(self).wf(),
            ({
                let pre = old(self)@;
                let post = final(self)@;
                let total = utf8_bytes(request.content@).len();
                let per_output = request.policy@.per_output_limit_bytes;
                let aggregate = request.policy@.aggregate_limit_bytes;
                let first_window_of = |w: ToolOutputStoreWindow|
                    is_window_of(
                        w,
                        request.tool_name@,
                        request.content@,
                        0,
                        request.first_window_length as int,
                    );
                if total > per_output {
                    &&& result matches Err(ToolOutputStoreError::PerOutputOverflow {
                        requested_bytes,
                        limit_bytes,
                        window,
                    })
                    &&& requested_bytes == total && limit_bytes == per_output
                    &&& first_window_of(window)
                    &&& post == pre
                } else if pre.reserved_bytes + total > aggregate {
                    &&& result matches Err(e)
                    &&& e matches ToolOutputStoreError::AggregateExhausted { window, .. }
                    &&& first_window_of(window)
                    &&& e == aggregate_exhausted(total as usize, pre.reserved_bytes, request.policy, window)
                    &&& post == pre
                } else if pre.fail_next_write {
                    &&& result matches Err(ToolOutputStoreError::WriteFailure { window, source })
                    &&& source == WriteFailureSource::InjectedWriteFailure
                    &&& first_window_of(window)
                    &&& post == (OutputStoreView { fail_next_write: false, ..pre })
                } else {
                    match generated_id {
                        Err(failure) => {
                            &&& result matches Err(ToolOutputStoreError::WriteFailure { window, source })
                            &&& source == WriteFailureSource::IdGeneration(failure)
                            &&& first_window_of(window)
                            &&& post == pre
                        },
                        Ok(id) => if pre.outputs.dom().contains(id@) {
                            &&& result matches Err(ToolOutputStoreError::WriteFailure { window, source })
                            &&& source == WriteFailureSource::OutputIdCollision
                            &&& first_window_of(window)
                            &&& post == pre
                        } else {
                            &&& result matches Ok(written)
                            &&& written.output_id == id
                            &&& first_window_of(written.first_window)
                            &&& is_successful_write(pre, post, request, written)
                        },
                    }
                }
            }),
    {
        let total_bytes = request.content.as_str().len();
        let first_window = prefix_window(
            request.tool_name.clone(),
            request.content.as_str(),
            request.first_window_length,
        );
        let per_output_limit = request.policy.per_output_limit_bytes();
        if total_bytes > per_output_limit {
            return Err(
                ToolOutputStoreError::PerOutputOverflow {
                    requested_bytes: total_bytes,
                    limit_bytes: per_output_limit,
                    window: first_window,
                },
            );
        }
        match self.reserve(total_bytes, &request.policy, first_window.copy_window()) {
            Ok(()) => {},
            Err(error) => {
                return Err(error);
            },
        }
        if self.fail_next_write {
            self.fail_next_write = false;
            self.rollback(total_bytes);
            return Err(
                ToolOutputStoreError::write_failure(
                    first_window,
                    WriteFailureSource::InjectedWriteFailure,
                ),
            );
        }
        let output_id = match generated_id {
            Ok(id) => id,
            Err(failure) => {
                self.rollback(total_bytes);
                return Err(
                    ToolOutputStoreError::write_failure(
                        first_window,
                        WriteFailureSource::IdGeneration(failure),
                    ),
                );
            },
        };
        proof {
            lemma_entries_view(self.entries@);
        }
        if self.find(&output_id).is_some() {
            self.rollback(total_bytes);
            return Err(
                ToolOutputStoreError::write_failure(
                    first_window,
                    WriteFailureSource::OutputIdCollision,
                ),
            );
        }
        let ghost before = self.entries@;
        self.entries.push(
            StoredToolOutput {
                output_id: output_id.duplicate(),
                tool_name: request.tool_name,
                content: request.content,
            },
        );
        proof {
            assert(self.entries@.drop_last() =~= before);
            assert(ids_unique(self.entries@)) by {
                assert forall|i: int, j: int|
                    0 <= i < self.entries@.len() && 0 <= j < self.entries@.len() && i != j implies self.entries@[i].output_id@
                    != self.entries@[j].output_id@ by {
                    if i < before.len() {
                        assert(self.entries@[i] == before[i]);
                    }
                    if j < before.len() {
                        assert(self.entries@[j] == before[j]);
                    }
                }
            }
        }
        Ok(ToolOutputWriteResult { output_id, first_window })
    }

    /// Reads a UTF-8-safe byte window of a previously stored output.
    ///
    /// An id this store does not hold, including one from another store, is
    /// unavailable; otherwise the window is the one `read_window` gives for
    /// the stored output.
    pub fn read(&self, request: ToolOutputStoreReadRequest) -> (result: Result<
        ToolOutputStoreWindow,
        ToolOutputStoreError,
    >)
        requires
            self.wf(),
        ensures
            !self@.outputs.dom().contains(request.output_id@) ==> result == Err::<
                ToolOutputStoreWindow,
                ToolOutputStoreError,
            >(ToolOutputStoreError::UnavailableOutput { output_id: request.output_id }),
            self@.outputs.dom().contains(request.output_id@) ==> is_read_outcome(
                self@.outputs[request.output_id@].tool_name,
                self@.outputs[request.output_id@].content,
                request,
                result,
            ),
    {
        proof {
            lemma_entries_view(self.entries@);
        }
        match self.find(&request.output_id) {
            None => Err(ToolOutputStoreError::UnavailableOutput { output_id: request.output_id }),
            Some(index) => {
                let entry = &self.entries[index];
                proof {
                    lemma_stored_bytes_bound(self.entries@, index as int);
                }
                read_window(entry.tool_name.clone(), entry.content.as_str(), request)
            },
        }
    }
}

fn aggregate_exhausted_error(
    requested_bytes: usize,
    current_bytes: usize,
    policy: &ToolOutputPolicy,
    window: ToolOutputStoreWindow,
) -> (error: ToolOutputStoreError)
    ensures
        error == aggregate_exhausted(requested_bytes, current_bytes as nat, *policy, window),
{
    let limit_bytes = policy.aggregate_limit_bytes();
    let available_bytes = limit_bytes.saturating_sub(current_bytes);
    ToolOutputStoreError::AggregateExhausted {
        requested_bytes,
        available_bytes,
        limit_bytes,
        window,
    }
}

} // verus!
