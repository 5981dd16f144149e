//! The reference store: an in-memory sink with the exact semantics every
//! backend owes the pipeline — idempotent schema setup, all-or-nothing
//! batch insert in arrival order, and the graph pass that derives persons,
//! threads and their edges from the flat message set by lookup-or-create.
use vstd::prelude::*;

use crate::error::ExportError;
use crate::transport::Message;

verus! {

/// A derived person: unique per phone/handle identity.
pub struct Person {
    pub phone_number: String,
    /// True when this person is the archive owner.
    pub is_me: bool,
}

/// A derived conversation thread: unique per grouping key.
pub struct Thread {
    pub unique_chat_id: String,
}

/// Counts of entities and edges one graph pass created.
pub struct GraphStats {
    pub persons_created: usize,
    pub threads_created: usize,
    pub sent_edges: usize,
    pub messaged_in_edges: usize,
    pub in_thread_edges: usize,
    pub messages_processed: usize,
}

/// The in-memory store: schema state, the inserted message set, and the
/// derived graph.
pub struct MemoryStore {
    pub schema_ready: bool,
    pub messages: Vec<Message>,
    pub persons: Vec<Person>,
    pub threads: Vec<Thread>,
    /// Edges person → message, as (phone number, message guid).
    pub sent: Vec<(String, String)>,
    /// Edges person → thread, as (phone number, grouping key).
    pub messaged_in: Vec<(String, String)>,
    /// Edges message → thread, as (message guid, grouping key).
    pub in_thread: Vec<(String, String)>,
}

/// True when some person carries this phone number.
pub open spec fn person_known(persons: Seq<Person>, phone: Seq<char>) -> bool {
    exists|i: int| 0 <= i < persons.len() && persons[i].phone_number@ == phone
}

/// True when some thread carries this grouping key.
pub open spec fn thread_known(threads: Seq<Thread>, key: Seq<char>) -> bool {
    exists|i: int| 0 <= i < threads.len() && threads[i].unique_chat_id@ == key
}

/// Lookup-or-create of one message's sender: an unknown phone number adds a
/// person, a known one adds nothing.
pub open spec fn add_person_spec(persons: Seq<Person>, m: Message) -> Seq<Person> {
    if person_known(persons, m.phone_number@) {
        persons
    } else {
        persons.push(Person { phone_number: m.phone_number, is_me: m.is_from_me })
    }
}

/// Lookup-or-create of one message's thread.
pub open spec fn add_thread_spec(threads: Seq<Thread>, m: Message) -> Seq<Thread> {
    if thread_known(threads, m.unique_chat_id@) {
        threads
    } else {
        threads.push(Thread { unique_chat_id: m.unique_chat_id })
    }
}

/// The persons after the graph pass has processed the messages from
/// position `i` on.
pub open spec fn persons_after(persons: Seq<Person>, msgs: Seq<Message>, i: int) -> Seq<Person>
    decreases msgs.len() - i,
{
    if i < 0 || i >= msgs.len() {
        persons
    } else {
        persons_after(add_person_spec(persons, msgs[i]), msgs, i + 1)
    }
}

/// The threads after the graph pass has processed the messages from
/// position `i` on.
pub open spec fn threads_after(threads: Seq<Thread>, msgs: Seq<Message>, i: int) -> Seq<Thread>
    decreases msgs.len() - i,
{
    if i < 0 || i >= msgs.len() {
        threads
    } else {
        threads_after(add_thread_spec(threads, msgs[i]), msgs, i + 1)
    }
}

/// One sent edge per message: its sender to the message itself.
pub open spec fn sent_edges_spec(msgs: Seq<Message>) -> Seq<(String, String)> {
    msgs.map_values(|m: Message| (m.phone_number, m.guid))
}

/// One messaged-in edge per message: its sender to its thread.
pub open spec fn messaged_in_edges_spec(msgs: Seq<Message>) -> Seq<(String, String)> {
    msgs.map_values(|m: Message| (m.phone_number, m.unique_chat_id))
}

/// One in-thread edge per message: the message to its thread.
pub open spec fn in_thread_edges_spec(msgs: Seq<Message>) -> Seq<(String, String)> {
    msgs.map_values(|m: Message| (m.guid, m.unique_chat_id))
}

/// No two persons share a phone number.
pub open spec fn persons_unique(persons: Seq<Person>) -> bool {
    forall|i: int, j: int|
        0 <= i < j < persons.len() ==> persons[i].phone_number@ != persons[j].phone_number@
}

/// No two threads share a grouping key.
pub open spec fn threads_unique(threads: Seq<Thread>) -> bool {
    forall|i: int, j: int|
        0 <= i < j < threads.len() ==> threads[i].unique_chat_id@ != threads[j].unique_chat_id@
}

/// What schema setup does to the store: it marks the schema ready and
/// touches nothing else, whatever state it starts from.
pub open spec fn setup_schema_spec(s: MemoryStore) -> MemoryStore {
    MemoryStore { schema_ready: true, ..s }
}

/// Schema setup is idempotent: a second run changes nothing.
pub proof fn lemma_setup_schema_idempotent(s: MemoryStore)
    ensures
        setup_schema_spec(setup_schema_spec(s)) == setup_schema_spec(s),
{
}

impl MemoryStore {
    /// The store's invariant: person and thread keys are unique.
    pub open spec fn wf(&self) -> bool {
        persons_unique(self.persons@) && threads_unique(self.threads@)
    }

    /// An empty store with no schema yet.
    pub fn new() -> (r: MemoryStore)
        ensures
            r.wf(),
            !r.schema_ready,
            r.messages@.len() == 0,
            r.persons@.len() == 0,
            r.threads@.len() == 0,
            r.sent@.len() == 0,
            r.messaged_in@.len() == 0,
            r.in_thread@.len() == 0,
    {
        MemoryStore {
            schema_ready: false,
            messages: Vec::new(),
            persons: Vec::new(),
            threads: Vec::new(),
            sent: Vec::new(),
            messaged_in: Vec::new(),
            in_thread: Vec::new(),
        }
    }

    /// Declare the store's collections and uniqueness constraints. Safe to
    /// call any number of times: it never fails and a repeated call leaves
    /// the store as it was.
    pub fn setup_schema(&mut self) -> (r: Result<(), ExportError>)
        ensures
            *final(self) == setup_schema_spec(*old(self)),
            r is Ok,
    {
        self.schema_ready = true;
        Ok(())
    }

    /// Append a batch of records to the message set, in arrival order,
    /// all-or-nothing.
    pub fn insert_batch(&mut self, records: Vec<Message>) -> (r: Result<(), ExportError>)
        ensures
            final(self).messages@ == old(self).messages@ + records@,
            final(self).schema_ready == old(self).schema_ready,
            final(self).persons == old(self).persons,
            final(self).threads == old(self).threads,
            final(self).sent == old(self).sent,
            final(self).messaged_in == old(self).messaged_in,
            final(self).in_thread == old(self).in_thread,
            r is Ok,
    {
        let mut records = records;
        self.messages.append(&mut records);
        Ok(())
    }

    /// The durability barrier: the in-memory store has nothing buffered, so
    /// this is a no-op that never fails.
    pub fn flush(&self) -> (r: Result<(), ExportError>)
        ensures
            r is Ok,
    {
        Ok(())
    }

    /// Find a person by phone number.
    fn find_person(&self, phone: &String) -> (r: Option<usize>)
        ensures
            match r {
                Some(i) => i < self.persons@.len() && self.persons@[i as int].phone_number@
                    == phone@,
                None => !person_known(self.persons@, phone@),
            },
    {
        let mut k: usize = 0;
        while k < self.persons.len()
            invariant
                k <= self.persons@.len(),
                forall|i: int| 0 <= i < k ==> self.persons@[i].phone_number@ != phone@,
            decreases self.persons@.len() - k,
        {
            if self.persons[k].phone_number.eq(phone) {
                return Some(k);
            }
            k = k + 1;
        }
        None
    }

    /// Find a thread by grouping key.
    fn find_thread(&self, key: &String) -> (r: Option<usize>)
        ensures
            match r {
                Some(i) => i < self.threads@.len() && self.threads@[i as int].unique_chat_id@
                    == key@,
                None => !thread_known(self.threads@, key@),
            },
    {
        let mut k: usize = 0;
        while k < self.threads.len()
            invariant
                k <= self.threads@.len(),
                forall|i: int| 0 <= i < k ==> self.threads@[i].unique_chat_id@ != key@,
            decreases self.threads@.len() - k,
        {
            if self.threads[k].unique_chat_id.eq(key) {
                return Some(k);
            }
            k = k + 1;
        }
        None
    }

    /// The graph pass: for each inserted message, lookup-or-create its
    /// sender and its thread, then add the three edges unconditionally.
    /// Edge creation is not deduplicated: a repeated run duplicates edges,
    /// while persons and threads stay unique.
    pub fn materialize_graph(&mut self) -> (r: GraphStats)
        requires
            old(self).wf(),
        ensures
            final(self).wf(),
            final(self).schema_ready == old(self).schema_ready,
            final(self).messages == old(self).messages,
            final(self).persons@ == persons_after(old(self).persons@, old(self).messages@, 0),
            final(self).threads@ == threads_after(old(self).threads@, old(self).messages@, 0),
            final(self).sent@ == old(self).sent@ + sent_edges_spec(old(self).messages@),
            final(self).messaged_in@ == old(self).messaged_in@ + messaged_in_edges_spec(
                old(self).messages@,
            ),
            final(self).in_thread@ == old(self).in_thread@ + in_thread_edges_spec(
                old(self).messages@,
            ),
            r.persons_created == final(self).persons@.len() - old(self).persons@.len(),
            r.threads_created == final(self).threads@.len() - old(self).threads@.len(),
            r.sent_edges == old(self).messages@.len(),
            r.messaged_in_edges == old(self).messages@.len(),
            r.in_thread_edges == old(self).messages@.len(),
            r.messages_processed == old(self).messages@.len(),
    {
        let ghost msgs = self.messages@;
        let persons_before = self.persons.len();
        let threads_before = self.threads.len();
        let mut i: usize = 0;
        while i < self.messages.len()
            invariant
                i <= msgs.len(),
                msgs == self.messages@,
                self.schema_ready == old(self).schema_ready,
                self.messages == old(self).messages,
                persons_before == old(self).persons@.len(),
                threads_before == old(self).threads@.len(),
                self.persons@.len() >= persons_before,
                self.threads@.len() >= threads_before,
                persons_unique(self.persons@),
                threads_unique(self.threads@),
                persons_after(old(self).persons@, msgs, 0) == persons_after(
                    self.persons@,
                    msgs,
                    i as int,
                ),
                threads_after(old(self).threads@, msgs, 0) == threads_after(
                    self.threads@,
                    msgs,
                    i as int,
                ),
                self.sent@ == old(self).sent@ + sent_edges_spec(msgs).take(i as int),
                self.messaged_in@ == old(self).messaged_in@ + messaged_in_edges_spec(msgs).take(
                    i as int,
                ),
                self.in_thread@ == old(self).in_thread@ + in_thread_edges_spec(msgs).take(
                    i as int,
                ),
            decreases msgs.len() - i,
        {
            let ghost persons0 = self.persons@;
            let ghost threads0 = self.threads@;
            let phone = self.messages[i].phone_number.clone();
            let guid = self.messages[i].guid.clone();
            let key = self.messages[i].unique_chat_id.clone();
            let is_me = self.messages[i].is_from_me;

            if self.find_person(&phone).is_none() {
                self.persons.push(Person { phone_number: phone.clone(), is_me });
            }
            proof {
                assert(self.persons@ =~= add_person_spec(persons0, msgs[i as int]));
            }

            if self.find_thread(&key).is_none() {
                self.threads.push(Thread { unique_chat_id: key.clone() });
            }
            proof {
                assert(self.threads@ =~= add_thread_spec(threads0, msgs[i as int]));
            }

            self.sent.push((phone.clone(), guid.clone()));
            self.messaged_in.push((phone, key.clone()));
            self.in_thread.push((guid, key));
            proof {
                assert(sent_edges_spec(msgs).take(i + 1) =~= sent_edges_spec(msgs).take(i as int)
                    .push(sent_edges_spec(msgs)[i as int]));
                assert(messaged_in_edges_spec(msgs).take(i + 1) =~= messaged_in_edges_spec(
                    msgs,
                ).take(i as int).push(messaged_in_edges_spec(msgs)[i as int]));
                assert(in_thread_edges_spec(msgs).take(i + 1) =~= in_thread_edges_spec(msgs).take(
                    i as int,
                ).push(in_thread_edges_spec(msgs)[i as int]));
                assert(self.sent@ =~= old(self).sent@ + sent_edges_spec(msgs).take(i + 1));
                assert(self.messaged_in@ =~= old(self).messaged_in@ + messaged_in_edges_spec(
                    msgs,
                ).take(i + 1));
                assert(self.in_thread@ =~= old(self).in_thread@ + in_thread_edges_spec(msgs).take(
                    i + 1,
                ));
            }
            i = i + 1;
        }
        proof {
            assert(sent_edges_spec(msgs).take(msgs.len() as int) =~= sent_edges_spec(msgs));
            assert(messaged_in_edges_spec(msgs).take(msgs.len() as int) =~= messaged_in_edges_spec(
                msgs,
            ));
            assert(in_thread_edges_spec(msgs).take(msgs.len() as int) =~= in_thread_edges_spec(
                msgs,
            ));
        }
        GraphStats {
            persons_created: self.persons.len() - persons_before,
            threads_created: self.threads.len() - threads_before,
            sent_edges: self.messages.len(),
            messaged_in_edges: self.messages.len(),
            in_thread_edges: self.messages.len(),
            messages_processed: self.messages.len(),
        }
    }
}

/// A known phone number stays known through the rest of the pass: the pass
/// only ever appends persons.
proof fn lemma_person_known_monotone(
    persons: Seq<Person>,
    msgs: Seq<Message>,
    i: int,
    phone: Seq<char>,
)
    requires
        person_known(persons, phone),
    ensures
        person_known(persons_after(persons, msgs, i), phone),
    decreases msgs.len() - i,
{
    if i < 0 || i >= msgs.len() {
    } else {
        let next = add_person_spec(persons, msgs[i]);
        let k = choose|k: int| 0 <= k < persons.len() && persons[k].phone_number@ == phone;
        assert(next[k].phone_number@ == phone);
        lemma_person_known_monotone(next, msgs, i + 1, phone);
    }
}

/// After the pass has processed message `j`, its sender is known.
proof fn lemma_persons_after_covers(persons: Seq<Person>, msgs: Seq<Message>, i: int, j: int)
    requires
        0 <= i <= j < msgs.len(),
    ensures
        person_known(persons_after(persons, msgs, i), msgs[j].phone_number@),
    decreases msgs.len() - i,
{
    let next = add_person_spec(persons, msgs[i]);
    if i == j {
        assert(person_known(next, msgs[i].phone_number@)) by {
            if !person_known(persons, msgs[i].phone_number@) {
                assert(next[persons.len() as int].phone_number@ == msgs[i].phone_number@);
            }
        }
        lemma_person_known_monotone(next, msgs, i + 1, msgs[j].phone_number@);
    } else {
        lemma_persons_after_covers(next, msgs, i + 1, j);
    }
}

/// When every remaining sender is already known, the pass adds nobody.
proof fn lemma_persons_after_noop(persons: Seq<Person>, msgs: Seq<Message>, i: int)
    requires
        forall|j: int| i <= j < msgs.len() ==> person_known(persons, msgs[j].phone_number@),
    ensures
        persons_after(persons, msgs, i) == persons,
    decreases msgs.len() - i,
{
    if i < 0 || i >= msgs.len() {
    } else {
        assert(add_person_spec(persons, msgs[i]) == persons);
        lemma_persons_after_noop(persons, msgs, i + 1);
    }
}

/// A known grouping key stays known through the rest of the pass.
proof fn lemma_thread_known_monotone(
    threads: Seq<Thread>,
    msgs: Seq<Message>,
    i: int,
    key: Seq<char>,
)
    requires
        thread_known(threads, key),
    ensures
        thread_known(threads_after(threads, msgs, i), key),
    decreases msgs.len() - i,
{
    if i < 0 || i >= msgs.len() {
    } else {
        let next = add_thread_spec(threads, msgs[i]);
        let k = choose|k: int| 0 <= k < threads.len() && threads[k].unique_chat_id@ == key;
        assert(next[k].unique_chat_id@ == key);
        lemma_thread_known_monotone(next, msgs, i + 1, key);
    }
}

/// After the pass has processed message `j`, its thread is known.
proof fn lemma_threads_after_covers(threads: Seq<Thread>, msgs: Seq<Message>, i: int, j: int)
    requires
        0 <= i <= j < msgs.len(),
    ensures
        thread_known(threads_after(threads, msgs, i), msgs[j].unique_chat_id@),
    decreases msgs.len() - i,
{
    let next = add_thread_spec(threads, msgs[i]);
    if i == j {
        assert(thread_known(next, msgs[i].unique_chat_id@)) by {
            if !thread_known(threads, msgs[i].unique_chat_id@) {
                assert(next[threads.len() as int].unique_chat_id@ == msgs[i].unique_chat_id@);
            }
        }
        lemma_thread_known_monotone(next, msgs, i + 1, msgs[j].unique_chat_id@);
    } else {
        lemma_threads_after_covers(next, msgs, i + 1, j);
    }
}

/// When every remaining grouping key is already known, the pass adds no
/// thread.
proof fn lemma_threads_after_noop(threads: Seq<Thread>, msgs: Seq<Message>, i: int)
    requires
        forall|j: int| i <= j < msgs.len() ==> thread_known(threads, msgs[j].unique_chat_id@),
    ensures
        threads_after(threads, msgs, i) == threads,
    decreases msgs.len() - i,
{
    if i < 0 || i >= msgs.len() {
    } else {
        assert(add_thread_spec(threads, msgs[i]) == threads);
        lemma_threads_after_noop(threads, msgs, i + 1);
    }
}

/// The graph pass is idempotent on persons and threads: run twice over the
/// same message set, the second run leaves both exactly as the first left
/// them — in particular both counts are the same after either run. Only
/// edges, which the pass appends unconditionally, may duplicate.
pub proof fn lemma_materialize_graph_idempotent(
    persons: Seq<Person>,
    threads: Seq<Thread>,
    msgs: Seq<Message>,
)
    ensures
        persons_after(persons_after(persons, msgs, 0), msgs, 0) == persons_after(
            persons,
            msgs,
            0,
        ),
        threads_after(threads_after(threads, msgs, 0), msgs, 0) == threads_after(
            threads,
            msgs,
            0,
        ),
{
    let p1 = persons_after(persons, msgs, 0);
    assert forall|j: int| 0 <= j < msgs.len() implies person_known(
        p1,
        msgs[j].phone_number@,
    ) by {
        lemma_persons_after_covers(persons, msgs, 0, j);
    }
    lemma_persons_after_noop(p1, msgs, 0);

    let t1 = threads_after(threads, msgs, 0);
    assert forall|j: int| 0 <= j < msgs.len() implies thread_known(
        t1,
        msgs[j].unique_chat_id@,
    ) by {
        lemma_threads_after_covers(threads, msgs, 0, j);
    }
    lemma_threads_after_noop(t1, msgs, 0);
}

} // verus!
