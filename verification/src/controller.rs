//! Virtual gamepad slots: which global slot a session's controller lives in,
//! how attach, detach and disconnect change the table, and which writes a
//! batch of input turns into. The code that talks to the input daemon
//! performs the writes; every decision is taken here.

use std::collections::HashMap;
use vstd::prelude::*;
use vstd::std_specs::hash::*;
use crate::message::{
    Payload, ProtoClientDisconnected, ProtoControllerAttach, ProtoControllerStateBatch,
};
use crate::text::{lowercase, same_text, to_lowercase};

verus! {

broadcast use vstd::std_specs::hash::group_hash_axioms;

/// The hard cap on simultaneous virtual gamepads: slots 0 to 16.
pub const MAX_CONTROLLERS: u32 = 17;

/// Capacity of the queue of commands to the controller task.
pub const COMMAND_QUEUE_CAPACITY: usize = 512;

/// Capacity of the queue of rumble events from the daemon.
pub const RUMBLE_QUEUE_CAPACITY: usize = 256;

/// Capacity of the queue of attach acknowledgements.
pub const ATTACH_QUEUE_CAPACITY: usize = 64;

/// The gamepad models that a virtual device can be made after.
#[derive(Clone, Copy, Debug, PartialEq, Eq, Structural)]
pub enum ControllerTemplate {
    Ps4,
    Ps5,
    Xbox360,
    XboxOne,
    SwitchPro,
}

/// The name on an attach request stands for no known gamepad model.
#[derive(Clone, Copy, Debug, PartialEq, Eq, Structural)]
pub struct UnsupportedController;

/// The model that a lower-cased name stands for.
pub open spec fn template_for(lower: Seq<char>) -> Option<ControllerTemplate> {
    if lower == "ps4"@ {
        Some(ControllerTemplate::Ps4)
    } else if lower == "ps5"@ {
        Some(ControllerTemplate::Ps5)
    } else if lower == "xbox360"@ {
        Some(ControllerTemplate::Xbox360)
    } else if lower == "xboxone"@ {
        Some(ControllerTemplate::XboxOne)
    } else if lower == "switchpro"@ {
        Some(ControllerTemplate::SwitchPro)
    } else {
        None
    }
}

/// The model that `lower`, a name already in lower case, stands for.
pub fn template_for_lowercase(lower: &str) -> (res: Option<ControllerTemplate>)
    ensures
        res == template_for(lower@),
{
    if same_text(lower, "ps4") {
        Some(ControllerTemplate::Ps4)
    } else if same_text(lower, "ps5") {
        Some(ControllerTemplate::Ps5)
    } else if same_text(lower, "xbox360") {
        Some(ControllerTemplate::Xbox360)
    } else if same_text(lower, "xboxone") {
        Some(ControllerTemplate::XboxOne)
    } else if same_text(lower, "switchpro") {
        Some(ControllerTemplate::SwitchPro)
    } else {
        None
    }
}

/// The gamepad model that the `id` of an attach request names, whatever its
/// case.
pub fn controller_string_to_type(controller_type: &str) -> (res: Result<
    ControllerTemplate,
    UnsupportedController,
>)
    ensures
        match template_for(lowercase(controller_type@)) {
            Some(t) => res == Ok::<ControllerTemplate, UnsupportedController>(t),
            None => res is Err,
        },
{
    let lower = to_lowercase(controller_type);
    match template_for_lowercase(lower.as_str()) {
        Some(t) => Ok(t),
        None => Err(UnsupportedController),
    }
}

/// What the table keeps for a live slot.
#[derive(Debug)]
pub struct ControllerSlot {
    /// The model of the virtual device in the slot.
    pub template: ControllerTemplate,
    /// The session that owns the slot.
    pub session_id: String,
    /// The session's own index for this controller.
    pub session_slot: u32,
}

/// The slot record belongs to the controller `session_slot` of `session_id`.
pub open spec fn owned_by(slot: ControllerSlot, session_id: Seq<char>, session_slot: u32) -> bool {
    slot.session_id@ == session_id && slot.session_slot == session_slot
}

/// The invariant of a slot table: every live slot number is below 17, and no
/// two slots belong to the same controller of the same session.
pub open spec fn table_wf(m: Map<u32, ControllerSlot>) -> bool {
    &&& forall|k: u32| m.contains_key(k) ==> k < MAX_CONTROLLERS
    &&& forall|a: u32, b: u32|
        m.contains_key(a) && m.contains_key(b) && m[a].session_id@ == m[b].session_id@
            && m[a].session_slot == m[b].session_slot ==> a == b
}

/// `slot` is the lowest slot number that is not live.
pub open spec fn is_first_free(m: Map<u32, ControllerSlot>, slot: u32) -> bool {
    &&& slot < MAX_CONTROLLERS
    &&& !m.contains_key(slot)
    &&& forall|j: u32| j < slot ==> m.contains_key(j)
}

/// The lowest free slot, if there is one.
pub open spec fn first_free(m: Map<u32, ControllerSlot>) -> Option<u32> {
    if exists|s: u32| is_first_free(m, s) {
        Some(choose|s: u32| is_first_free(m, s))
    } else {
        None
    }
}

/// `slot` is live and belongs to the given controller of the given session.
pub open spec fn is_owner_slot(
    m: Map<u32, ControllerSlot>,
    session_id: Seq<char>,
    session_slot: u32,
    slot: u32,
) -> bool {
    m.contains_key(slot) && owned_by(m[slot], session_id, session_slot)
}

/// The slot that belongs to the given controller of the given session, if
/// there is one. In a well-formed table there is at most one.
pub open spec fn owner_slot(
    m: Map<u32, ControllerSlot>,
    session_id: Seq<char>,
    session_slot: u32,
) -> Option<u32> {
    if exists|s: u32| is_owner_slot(m, session_id, session_slot, s) {
        Some(choose|s: u32| is_owner_slot(m, session_id, session_slot, s))
    } else {
        None
    }
}

/// What to do about an attach request.
#[derive(Clone, Copy, Debug, PartialEq, Eq, Structural)]
pub enum AttachPlan {
    /// The session already owns this slot: keep the device, register the
    /// rumble callback again and acknowledge the slot.
    Reattach { slot: u32 },
    /// Make a device of this model for this free slot, register the rumble
    /// callback, acknowledge, and then record the slot.
    Create { slot: u32, template: ControllerTemplate },
    /// This slot is free, but the request names no known model.
    Unsupported { slot: u32 },
    /// All 17 slots are live: the request is dropped.
    Full,
}

/// The plan for an attach request with these fields against the table `m`.
pub open spec fn attach_plan(
    m: Map<u32, ControllerSlot>,
    id: Seq<char>,
    session_id: Seq<char>,
    session_slot: u32,
) -> AttachPlan {
    match owner_slot(m, session_id, session_slot) {
        Some(slot) => AttachPlan::Reattach { slot },
        None => match first_free(m) {
            Some(slot) => match template_for(lowercase(id)) {
                Some(template) => AttachPlan::Create { slot, template },
                None => AttachPlan::Unsupported { slot },
            },
            None => AttachPlan::Full,
        },
    }
}

/// Whether a new record for this controller may go into `slot`.
pub open spec fn may_record(
    m: Map<u32, ControllerSlot>,
    slot: u32,
    session_id: Seq<char>,
    session_slot: u32,
) -> bool {
    &&& slot < MAX_CONTROLLERS
    &&& !m.contains_key(slot)
    &&& owner_slot(m, session_id, session_slot) is None
}

/// The table after the listed slots have been removed one after the other.
pub open spec fn after_removal(m: Map<u32, ControllerSlot>, slots: Seq<i32>) -> Map<
    u32,
    ControllerSlot,
>
    decreases slots.len(),
{
    if slots.len() == 0 {
        m
    } else {
        after_removal(m, slots.drop_last()).remove(slots.last() as u32)
    }
}

/// Of the listed slots, those that were live at their turn, in the order of
/// the list.
pub open spec fn removed_slots(m: Map<u32, ControllerSlot>, slots: Seq<i32>) -> Seq<u32>
    decreases slots.len(),
{
    if slots.len() == 0 {
        Seq::<u32>::empty()
    } else {
        let before = after_removal(m, slots.drop_last());
        let earlier = removed_slots(m, slots.drop_last());
        if before.contains_key(slots.last() as u32) {
            earlier.push(slots.last() as u32)
        } else {
            earlier
        }
    }
}

/// The table of live controller slots.
pub struct SlotTable {
    slots: HashMap<u32, ControllerSlot>,
}

impl View for SlotTable {
    type V = Map<u32, ControllerSlot>;

    closed spec fn view(&self) -> Map<u32, ControllerSlot> {
        self.slots@
    }
}

impl SlotTable {
    /// The table's invariant.
    pub open spec fn wf(&self) -> bool {
        table_wf(self@)
    }

    /// An empty table.
    pub fn new() -> (table: Self)
        ensures
            table.wf(),
            table@ == Map::<u32, ControllerSlot>::empty(),
    {
        SlotTable { slots: HashMap::new() }
    }

    /// The number of live slots, which never exceeds 17.
    pub fn len(&self) -> (n: usize)
        requires
            self.wf(),
        ensures
            n == self@.dom().len(),
            n <= MAX_CONTROLLERS,
    {
        proof {
            lemma_table_bounded(self@);
        }
        self.slots.len()
    }

    /// Whether `slot` is live.
    pub fn contains(&self, slot: u32) -> (live: bool)
        ensures
            live == self@.contains_key(slot),
    {
        self.slots.contains_key(&slot)
    }

    /// The record of `slot`, if it is live.
    pub fn get(&self, slot: u32) -> (res: Option<&ControllerSlot>)
        ensures
            match res {
                Some(r) => self@.contains_key(slot) && *r == self@[slot],
                None => !self@.contains_key(slot),
            },
    {
        self.slots.get(&slot)
    }

    /// The slot that the given controller of the given session lives in.
    pub fn find_slot(&self, session_id: &String, session_slot: u32) -> (res: Option<u32>)
        requires
            self.wf(),
        ensures
            res == owner_slot(self@, session_id@, session_slot),
    {
        let mut slot: u32 = 0;
        while slot < MAX_CONTROLLERS
            invariant
                slot <= MAX_CONTROLLERS,
                self.wf(),
                forall|j: u32| j < slot ==> !is_owner_slot(self@, session_id@, session_slot, j),
            decreases MAX_CONTROLLERS - slot,
        {
            match self.slots.get(&slot) {
                Some(record) => {
                    if record.session_slot == session_slot && record.session_id == *session_id {
                        assert(is_owner_slot(self@, session_id@, session_slot, slot));
                        return Some(slot);
                    }
                },
                None => {},
            }
            slot += 1;
        }
        assert forall|s: u32| !is_owner_slot(self@, session_id@, session_slot, s) by {
            if self@.contains_key(s) {
                assert(s < MAX_CONTROLLERS);
            }
        }
        None
    }

    /// What to do about an attach request: reattach where the session
    /// already owns a slot, otherwise take the lowest free slot, if any is
    /// left and the requested model is known.
    pub fn plan_attach(&self, attach: &ProtoControllerAttach) -> (plan: AttachPlan)
        requires
            self.wf(),
        ensures
            plan == attach_plan(
                self@,
                attach.id@,
                attach.session_id@,
                attach.session_slot as u32,
            ),
            match plan {
                AttachPlan::Create { slot, .. } => may_record(
                    self@,
                    slot,
                    attach.session_id@,
                    attach.session_slot as u32,
                ),
                _ => true,
            },
    {
        let session_slot: u32 = #[verifier::truncate]
        (attach.session_slot as u32);
        match self.find_slot(&attach.session_id, session_slot) {
            Some(slot) => AttachPlan::Reattach { slot },
            None => match get_free_slot(self) {
                Some(slot) => match controller_string_to_type(attach.id.as_str()) {
                    Ok(template) => AttachPlan::Create { slot, template },
                    Err(_) => AttachPlan::Unsupported { slot },
                },
                None => AttachPlan::Full,
            },
        }
    }

    /// Records a new slot once its device exists and its acknowledgement has
    /// been sent. Nothing is recorded, and `false` is returned, unless the
    /// slot is a free one below 17 and the controller has no slot yet.
    pub fn record_attach(&mut self, slot: u32, record: ControllerSlot) -> (recorded: bool)
        requires
            old(self).wf(),
        ensures
            final(self).wf(),
            recorded == may_record(old(self)@, slot, record.session_id@, record.session_slot),
            recorded ==> final(self)@ == old(self)@.insert(slot, record),
            !recorded ==> final(self)@ == old(self)@,
    {
        if slot >= MAX_CONTROLLERS || self.slots.contains_key(&slot) {
            return false;
        }
        if self.find_slot(&record.session_id, record.session_slot).is_some() {
            return false;
        }
        proof {
            lemma_record_keeps_wf(self@, slot, record);
        }
        self.slots.insert(slot, record);
        true
    }

    /// Removes the slot that a detach request names. Tells whether it was
    /// live.
    pub fn detach(&mut self, session_slot: i32) -> (found: bool)
        requires
            old(self).wf(),
        ensures
            final(self).wf(),
            found == old(self)@.contains_key(session_slot as u32),
            final(self)@ == old(self)@.remove(session_slot as u32),
    {
        let slot: u32 = #[verifier::truncate]
        (session_slot as u32);
        let removed = self.slots.remove(&slot);
        removed.is_some()
    }

    /// Removes every slot that a disconnected client lists. Returns those
    /// that were live, in the order of the list; the others were not there
    /// to remove.
    pub fn disconnect(&mut self, controller_slots: &Vec<i32>) -> (removed: Vec<u32>)
        requires
            old(self).wf(),
        ensures
            final(self).wf(),
            final(self)@ == after_removal(old(self)@, controller_slots@),
            removed@ == removed_slots(old(self)@, controller_slots@),
    {
        let mut removed: Vec<u32> = Vec::new();
        let mut i: usize = 0;
        while i < controller_slots.len()
            invariant
                i <= controller_slots.len(),
                self.wf(),
                self@ == after_removal(old(self)@, controller_slots@.take(i as int)),
                removed@ == removed_slots(old(self)@, controller_slots@.take(i as int)),
            decreases controller_slots.len() - i,
        {
            let ghost prefix = controller_slots@.take(i as int);
            let ghost next = controller_slots@.take(i + 1);
            assert(next.drop_last() =~= prefix);
            assert(next.last() == controller_slots@[i as int]);
            if self.detach(controller_slots[i]) {
                let slot: u32 = #[verifier::truncate]
                (controller_slots[i] as u32);
                removed.push(slot);
            }
            i += 1;
        }
        assert(controller_slots@.take(controller_slots.len() as int) =~= controller_slots@);
        removed
    }

    /// The writes that a batch of input makes on the device of the slot it
    /// names, or `None` where that slot is not live.
    pub fn route_state_batch(&self, batch: &ProtoControllerStateBatch) -> (res: Option<
        (u32, Vec<DeviceWrite>),
    >)
        ensures
            match res {
                Some((slot, writes)) => {
                    &&& slot == batch.session_slot as u32
                    &&& self@.contains_key(slot)
                    &&& writes@ == batch_writes(*batch)
                },
                None => !self@.contains_key(batch.session_slot as u32),
            },
    {
        let slot: u32 = #[verifier::truncate]
        (batch.session_slot as u32);
        if self.slots.contains_key(&slot) {
            Some((slot, plan_state_batch(batch)))
        } else {
            None
        }
    }
}

/// The lowest free slot of the table, or `None` when all 17 are live.
pub fn get_free_slot(controllers: &SlotTable) -> (res: Option<u32>)
    ensures
        res == first_free(controllers@),
        match res {
            Some(slot) => is_first_free(controllers@, slot),
            None => forall|j: u32| j < MAX_CONTROLLERS ==> controllers@.contains_key(j),
        },
{
    let mut slot: u32 = 0;
    while slot < MAX_CONTROLLERS
        invariant
            slot <= MAX_CONTROLLERS,
            forall|j: u32| j < slot ==> controllers@.contains_key(j),
        decreases MAX_CONTROLLERS - slot,
    {
        if !controllers.contains(slot) {
            proof {
                lemma_first_free_unique(controllers@, slot);
            }
            return Some(slot);
        }
        slot += 1;
    }
    assert forall|s: u32| !is_first_free(controllers@, s) by {}
    None
}

/// The acknowledgement of an attach: the request's model and session, and
/// the global slot that the controller lives in.
pub fn attach_ack(attach: &ProtoControllerAttach, slot: u32) -> (ack: ProtoControllerAttach)
    ensures
        ack.id@ == attach.id@,
        ack.session_id@ == attach.session_id@,
        ack.session_slot == slot as i32,
{
    let session_slot: i32 = #[verifier::truncate]
    (slot as i32);
    ProtoControllerAttach {
        id: attach.id.clone(),
        session_slot,
        session_id: attach.session_id.clone(),
    }
}

/// The record that goes into the table for an attach request.
pub fn slot_record(attach: &ProtoControllerAttach, template: ControllerTemplate) -> (record:
    ControllerSlot)
    ensures
        record.template == template,
        record.session_id@ == attach.session_id@,
        record.session_slot == attach.session_slot as u32,
{
    let session_slot: u32 = #[verifier::truncate]
    (attach.session_slot as u32);
    ControllerSlot { template, session_id: attach.session_id.clone(), session_slot }
}

/// There is only one lowest free slot.
pub proof fn lemma_first_free_unique(m: Map<u32, ControllerSlot>, slot: u32)
    requires
        is_first_free(m, slot),
    ensures
        first_free(m) == Some(slot),
{
    let other = choose|s: u32| is_first_free(m, s);
    assert(is_first_free(m, other));
    if other < slot {
        assert(m.contains_key(other));
    }
    if slot < other {
        assert(m.contains_key(slot));
    }
}

/// In a well-formed table a controller has at most one slot.
pub proof fn lemma_owner_unique(
    m: Map<u32, ControllerSlot>,
    session_id: Seq<char>,
    session_slot: u32,
    slot: u32,
)
    requires
        table_wf(m),
        is_owner_slot(m, session_id, session_slot, slot),
    ensures
        owner_slot(m, session_id, session_slot) == Some(slot),
{
    let other = choose|s: u32| is_owner_slot(m, session_id, session_slot, s);
    assert(is_owner_slot(m, session_id, session_slot, other));
}

/// Recording a slot that may be recorded keeps the table well formed.
pub proof fn lemma_record_keeps_wf(m: Map<u32, ControllerSlot>, slot: u32, record: ControllerSlot)
    requires
        table_wf(m),
        may_record(m, slot, record.session_id@, record.session_slot),
    ensures
        table_wf(m.insert(slot, record)),
{
    let after = m.insert(slot, record);
    assert forall|a: u32, b: u32|
        after.contains_key(a) && after.contains_key(b) && after[a].session_id@
            == after[b].session_id@ && after[a].session_slot == after[b].session_slot implies a
        == b by {
        if a != b {
            if a == slot {
                assert(is_owner_slot(m, record.session_id@, record.session_slot, b));
            } else if b == slot {
                assert(is_owner_slot(m, record.session_id@, record.session_slot, a));
            }
        }
    }
}

/// A well-formed table has at most 17 live slots, all numbered 0 to 16.
pub proof fn lemma_table_bounded(m: Map<u32, ControllerSlot>)
    requires
        table_wf(m),
    ensures
        m.dom().finite(),
        m.dom().len() <= MAX_CONTROLLERS,
        forall|k: u32| m.contains_key(k) ==> k <= 16,
{
    let all = Set::<u32>::new(|k: u32| k < 17);
    lemma_slot_numbers(17);
    assert(m.dom().subset_of(all));
    vstd::set_lib::lemma_len_subset(m.dom(), all);
}

/// There are `n` slot numbers below `n`.
proof fn lemma_slot_numbers(n: u32)
    ensures
        Set::<u32>::new(|k: u32| k < n).finite(),
        Set::<u32>::new(|k: u32| k < n).len() == n,
    decreases n,
{
    let below = Set::<u32>::new(|k: u32| k < n);
    if n == 0 {
        assert(below =~= Set::<u32>::empty());
    } else {
        let fewer = Set::<u32>::new(|k: u32| k < (n - 1) as u32);
        lemma_slot_numbers((n - 1) as u32);
        assert(below =~= fewer.insert((n - 1) as u32));
    }
}

/// Starting from an empty table, whatever is recorded, detached or
/// disconnected, the table stays well formed: it never holds more than 17
/// slots, and every live slot number lies between 0 and 16. This is the step
/// for the two removals; `record_attach` states its own.
pub proof fn lemma_removal_keeps_wf(m: Map<u32, ControllerSlot>, slots: Seq<i32>)
    requires
        table_wf(m),
    ensures
        table_wf(after_removal(m, slots)),
        after_removal(m, slots).dom().len() <= MAX_CONTROLLERS,
        forall|k: u32| after_removal(m, slots).contains_key(k) ==> m.contains_key(k) && k <= 16,
    decreases slots.len(),
{
    if slots.len() > 0 {
        lemma_removal_keeps_wf(m, slots.drop_last());
    }
    lemma_table_bounded(after_removal(m, slots));
}

/// A slot survives a disconnect exactly when it was live and the list does
/// not name it, and then its record is unchanged.
pub proof fn lemma_after_removal(m: Map<u32, ControllerSlot>, slots: Seq<i32>, k: u32)
    ensures
        after_removal(m, slots).contains_key(k) <==> m.contains_key(k) && forall|i: int|
            0 <= i < slots.len() ==> #[trigger] slots[i] as u32 != k,
        after_removal(m, slots).contains_key(k) ==> after_removal(m, slots)[k] == m[k],
    decreases slots.len(),
{
    if slots.len() > 0 {
        let front = slots.drop_last();
        lemma_after_removal(m, front, k);
        if m.contains_key(k) && (forall|i: int|
            0 <= i < slots.len() ==> #[trigger] slots[i] as u32 != k) {
            assert forall|i: int| 0 <= i < front.len() implies #[trigger] front[i] as u32
                != k by {
                assert(front[i] == slots[i]);
            }
            assert(slots[slots.len() - 1] as u32 != k);
        }
        if after_removal(m, slots).contains_key(k) {
            assert forall|i: int| 0 <= i < slots.len() implies #[trigger] slots[i] as u32
                != k by {
                if i < front.len() {
                    assert(front[i] == slots[i]);
                }
            }
        }
    }
}

/// One change to the slot table, as the commands of the peers cause them.
pub enum TableOp {
    /// An attach request with this model name, carried through to the
    /// record it makes where the plan is to create a slot.
    Attach { id: Seq<char>, record: ControllerSlot },
    /// A detach request for this slot.
    Detach { session_slot: i32 },
    /// A disconnect that lists these slots.
    Disconnect { controller_slots: Seq<i32> },
}

/// The table after one change.
pub open spec fn after_op(m: Map<u32, ControllerSlot>, op: TableOp) -> Map<u32, ControllerSlot> {
    match op {
        TableOp::Attach { id, record } => match attach_plan(
            m,
            id,
            record.session_id@,
            record.session_slot,
        ) {
            AttachPlan::Create { slot, .. } => m.insert(slot, record),
            _ => m,
        },
        TableOp::Detach { session_slot } => m.remove(session_slot as u32),
        TableOp::Disconnect { controller_slots } => after_removal(m, controller_slots),
    }
}

/// The table after a run of changes.
pub open spec fn after_ops(m: Map<u32, ControllerSlot>, ops: Seq<TableOp>) -> Map<
    u32,
    ControllerSlot,
>
    decreases ops.len(),
{
    if ops.len() == 0 {
        m
    } else {
        after_op(after_ops(m, ops.drop_last()), ops.last())
    }
}

/// Reconnection: after an attach request has been served, the same request
/// is answered with the same slot again, as long as nothing was removed in
/// between. This holds whether the first request made the slot or found it.
pub proof fn lemma_second_attach_same_slot(
    m: Map<u32, ControllerSlot>,
    id: Seq<char>,
    record: ControllerSlot,
)
    requires
        table_wf(m),
    ensures
        match attach_plan(m, id, record.session_id@, record.session_slot) {
            AttachPlan::Reattach { slot } => attach_plan(
                after_op(m, TableOp::Attach { id, record }),
                id,
                record.session_id@,
                record.session_slot,
            ) == (AttachPlan::Reattach { slot }),
            AttachPlan::Create { slot, .. } => attach_plan(
                after_op(m, TableOp::Attach { id, record }),
                id,
                record.session_id@,
                record.session_slot,
            ) == (AttachPlan::Reattach { slot }),
            _ => after_op(m, TableOp::Attach { id, record }) == m,
        },
{
    match attach_plan(m, id, record.session_id@, record.session_slot) {
        AttachPlan::Create { slot, template } => {
            assert(first_free(m) == Some(slot));
            assert(is_first_free(m, slot));
            lemma_record_keeps_wf(m, slot, record);
            let after = m.insert(slot, record);
            assert(is_owner_slot(after, record.session_id@, record.session_slot, slot));
            lemma_owner_unique(after, record.session_id@, record.session_slot, slot);
        },
        _ => {},
    }
}

/// Whatever attach, detach and disconnect requests come in, and in whatever
/// order, the table never holds more than 17 slots, and every live slot
/// number lies between 0 and 16.
pub proof fn lemma_ops_keep_bounds(m: Map<u32, ControllerSlot>, ops: Seq<TableOp>)
    requires
        table_wf(m),
    ensures
        table_wf(after_ops(m, ops)),
        after_ops(m, ops).dom().finite(),
        after_ops(m, ops).dom().len() <= MAX_CONTROLLERS,
        forall|k: u32| after_ops(m, ops).contains_key(k) ==> k <= 16,
    decreases ops.len(),
{
    if ops.len() > 0 {
        let before = after_ops(m, ops.drop_last());
        lemma_ops_keep_bounds(m, ops.drop_last());
        match ops.last() {
            TableOp::Attach { id, record } => {
                match attach_plan(before, id, record.session_id@, record.session_slot) {
                    AttachPlan::Create { slot, .. } => {
                        assert(is_first_free(before, slot));
                        lemma_record_keeps_wf(before, slot, record);
                    },
                    _ => {},
                }
            },
            TableOp::Detach { session_slot } => {},
            TableOp::Disconnect { controller_slots } => {
                lemma_removal_keeps_wf(before, controller_slots);
            },
        }
    }
    lemma_table_bounded(after_ops(m, ops));
}

/// The axes of a gamepad that a batch can set.
#[derive(Clone, Copy, Debug, PartialEq, Eq, Structural)]
pub enum AxisId {
    LeftStickX,
    LeftStickY,
    RightStickX,
    RightStickY,
    LowerLeftTrigger,
    LowerRightTrigger,
    DPadX,
    DPadY,
}

/// One call on the virtual device.
#[derive(Clone, Copy, Debug, PartialEq, Eq, Structural)]
pub enum DeviceWrite {
    /// Flush what was written so far.
    Sync,
    /// Press or release the button with this event code.
    Button { code: u16, pressed: bool },
    /// Move an axis to a value.
    Axis { axis: AxisId, value: i32 },
}

/// The event codes that `vimputti::Button::from_ev_code` knows: the thirteen
/// gamepad buttons from 0x130 to 0x13e and the four d-pad buttons from 0x220.
pub open spec fn button_code_known(code: u16) -> bool {
    ||| (0x130 <= code <= 0x13e && code != 0x132 && code != 0x135)
    ||| 0x220 <= code <= 0x223
}

/// `vimputti::Button::from_ev_code`, asked only whether it knows the code.
/// The contract claims that it knows exactly the codes of `button_code_known`.
#[verifier::external_body]
fn is_known_button(code: u16) -> (known: bool)
    ensures
        known == button_code_known(code),
{
    vimputti::Button::from_ev_code(code).is_some()
}

/// The mask bit of each field of a delta batch: bit 0 the buttons, bits 1
/// to 8 the axes in the order of `field_axis`.
pub open spec fn field_bit(field: nat) -> u32 {
    if field == 0 {
        0x001
    } else if field == 1 {
        0x002
    } else if field == 2 {
        0x004
    } else if field == 3 {
        0x008
    } else if field == 4 {
        0x010
    } else if field == 5 {
        0x020
    } else if field == 6 {
        0x040
    } else if field == 7 {
        0x080
    } else {
        0x100
    }
}

/// The field number of each axis.
pub open spec fn axis_field(axis: AxisId) -> nat {
    match axis {
        AxisId::LeftStickX => 1,
        AxisId::LeftStickY => 2,
        AxisId::RightStickX => 3,
        AxisId::RightStickY => 4,
        AxisId::LowerLeftTrigger => 5,
        AxisId::LowerRightTrigger => 6,
        AxisId::DPadX => 7,
        AxisId::DPadY => 8,
    }
}

/// The value that a batch carries for an axis.
pub open spec fn axis_value(batch: ProtoControllerStateBatch, axis: AxisId) -> Option<i32> {
    match axis {
        AxisId::LeftStickX => batch.left_stick_x,
        AxisId::LeftStickY => batch.left_stick_y,
        AxisId::RightStickX => batch.right_stick_x,
        AxisId::RightStickY => batch.right_stick_y,
        AxisId::LowerLeftTrigger => batch.left_trigger,
        AxisId::LowerRightTrigger => batch.right_trigger,
        AxisId::DPadX => batch.dpad_x,
        AxisId::DPadY => batch.dpad_y,
    }
}

/// Whether a batch applies the field: a full state applies every field, a
/// delta only those whose bit is set in `changed_fields`.
pub open spec fn field_applies(batch: ProtoControllerStateBatch, field: nat) -> bool {
    batch.update_type == 0 || match batch.changed_fields {
        Some(mask) => mask & field_bit(field) != 0,
        None => false,
    }
}

/// The writes for the listed buttons: each known button is set and flushed,
/// unknown codes are passed over.
pub open spec fn button_writes(buttons: Seq<(i32, bool)>) -> Seq<DeviceWrite>
    decreases buttons.len(),
{
    if buttons.len() == 0 {
        Seq::<DeviceWrite>::empty()
    } else {
        let earlier = button_writes(buttons.drop_last());
        let code = buttons.last().0 as u16;
        if button_code_known(code) {
            earlier.push(DeviceWrite::Button { code, pressed: buttons.last().1 }).push(
                DeviceWrite::Sync,
            )
        } else {
            earlier
        }
    }
}

/// The writes for one axis: where the batch applies the field and carries a
/// value, the value is set and flushed.
pub open spec fn axis_writes(batch: ProtoControllerStateBatch, axis: AxisId) -> Seq<DeviceWrite> {
    match axis_value(batch, axis) {
        Some(value) => if field_applies(batch, axis_field(axis)) {
            seq![DeviceWrite::Axis { axis, value }, DeviceWrite::Sync]
        } else {
            Seq::<DeviceWrite>::empty()
        },
        None => Seq::<DeviceWrite>::empty(),
    }
}

/// The writes for the buttons of a batch.
pub open spec fn buttons_part(batch: ProtoControllerStateBatch) -> Seq<DeviceWrite> {
    if field_applies(batch, 0) {
        button_writes(batch.button_changed_mask@)
    } else {
        Seq::<DeviceWrite>::empty()
    }
}

/// All the writes of a batch, in order: a leading flush, the buttons, then
/// the axes by field number. A delta without `changed_fields` writes nothing.
pub open spec fn batch_writes(batch: ProtoControllerStateBatch) -> Seq<DeviceWrite> {
    if batch.update_type != 0 && batch.changed_fields is None {
        Seq::<DeviceWrite>::empty()
    } else {
        seq![DeviceWrite::Sync] + buttons_part(batch) + axis_writes(batch, AxisId::LeftStickX)
            + axis_writes(batch, AxisId::LeftStickY) + axis_writes(batch, AxisId::RightStickX)
            + axis_writes(batch, AxisId::RightStickY) + axis_writes(
            batch,
            AxisId::LowerLeftTrigger,
        ) + axis_writes(batch, AxisId::LowerRightTrigger) + axis_writes(batch, AxisId::DPadX)
            + axis_writes(batch, AxisId::DPadY)
    }
}

/// The field that a write changes; a flush changes none.
pub open spec fn write_field(write: DeviceWrite) -> Option<nat> {
    match write {
        DeviceWrite::Sync => None,
        DeviceWrite::Button { .. } => Some(0nat),
        DeviceWrite::Axis { axis, .. } => Some(axis_field(axis)),
    }
}

fn push_button_writes(out: &mut Vec<DeviceWrite>, buttons: &Vec<(i32, bool)>)
    ensures
        final(out)@ == old(out)@ + button_writes(buttons@),
{
    let mut i: usize = 0;
    while i < buttons.len()
        invariant
            i <= buttons.len(),
            out@ == old(out)@ + button_writes(buttons@.take(i as int)),
        decreases buttons.len() - i,
    {
        let ghost next = buttons@.take(i + 1);
        assert(next.drop_last() =~= buttons@.take(i as int));
        assert(next.last() == buttons@[i as int]);
        let code: u16 = #[verifier::truncate]
        (buttons[i].0 as u16);
        if is_known_button(code) {
            out.push(DeviceWrite::Button { code, pressed: buttons[i].1 });
            out.push(DeviceWrite::Sync);
        }
        i += 1;
        assert(out@ =~= old(out)@ + button_writes(next));
    }
    assert(buttons@.take(buttons.len() as int) =~= buttons@);
}

fn push_axis_writes(
    out: &mut Vec<DeviceWrite>,
    batch: &ProtoControllerStateBatch,
    axis: AxisId,
    value: Option<i32>,
    bit: u32,
)
    requires
        value == axis_value(*batch, axis),
        bit == field_bit(axis_field(axis)),
    ensures
        final(out)@ == old(out)@ + axis_writes(*batch, axis),
{
    let applies = batch.update_type == 0 || match batch.changed_fields {
        Some(mask) => mask & bit != 0,
        None => false,
    };
    match value {
        Some(v) => {
            if applies {
                out.push(DeviceWrite::Axis { axis, value: v });
                out.push(DeviceWrite::Sync);
            }
        },
        None => {},
    }
    assert(out@ =~= old(out)@ + axis_writes(*batch, axis));
}

/// Turns a batch of input into the writes on the virtual device, in order.
pub fn plan_state_batch(batch: &ProtoControllerStateBatch) -> (writes: Vec<DeviceWrite>)
    ensures
        writes@ == batch_writes(*batch),
{
    let mut out: Vec<DeviceWrite> = Vec::new();
    if batch.update_type != 0 && batch.changed_fields.is_none() {
        return out;
    }
    out.push(DeviceWrite::Sync);
    assert(out@ =~= seq![DeviceWrite::Sync]);
    let buttons_apply = batch.update_type == 0 || match batch.changed_fields {
        Some(mask) => mask & 0x001 != 0,
        None => false,
    };
    if buttons_apply {
        push_button_writes(&mut out, &batch.button_changed_mask);
    }
    assert(out@ =~= seq![DeviceWrite::Sync] + buttons_part(*batch));
    push_axis_writes(&mut out, batch, AxisId::LeftStickX, batch.left_stick_x, 0x002);
    push_axis_writes(&mut out, batch, AxisId::LeftStickY, batch.left_stick_y, 0x004);
    push_axis_writes(&mut out, batch, AxisId::RightStickX, batch.right_stick_x, 0x008);
    push_axis_writes(&mut out, batch, AxisId::RightStickY, batch.right_stick_y, 0x010);
    push_axis_writes(&mut out, batch, AxisId::LowerLeftTrigger, batch.left_trigger, 0x020);
    push_axis_writes(&mut out, batch, AxisId::LowerRightTrigger, batch.right_trigger, 0x040);
    push_axis_writes(&mut out, batch, AxisId::DPadX, batch.dpad_x, 0x080);
    push_axis_writes(&mut out, batch, AxisId::DPadY, batch.dpad_y, 0x100);
    out
}

/// No write of `writes` changes the field.
pub open spec fn leaves_field(writes: Seq<DeviceWrite>, field: nat) -> bool {
    forall|i: int| 0 <= i < writes.len() ==> write_field(#[trigger] writes[i]) != Some(field)
}

/// Two runs of writes that each leave a field alone do so together.
proof fn lemma_leaves_field_concat(a: Seq<DeviceWrite>, b: Seq<DeviceWrite>, field: nat)
    requires
        leaves_field(a, field),
        leaves_field(b, field),
    ensures
        leaves_field(a + b, field),
{
    assert forall|i: int| 0 <= i < (a + b).len() implies write_field(#[trigger] (a + b)[i])
        != Some(field) by {
        if i < a.len() {
            assert((a + b)[i] == a[i]);
        } else {
            assert((a + b)[i] == b[i - a.len()]);
        }
    }
}

/// Button writes change the buttons and nothing else.
proof fn lemma_button_writes_fields(buttons: Seq<(i32, bool)>, field: nat)
    requires
        field != 0,
    ensures
        leaves_field(button_writes(buttons), field),
    decreases buttons.len(),
{
    if buttons.len() > 0 {
        lemma_button_writes_fields(buttons.drop_last(), field);
    }
}

/// The writes for an axis change that axis and nothing else, and nothing at
/// all where the batch does not apply the field.
proof fn lemma_axis_writes_fields(batch: ProtoControllerStateBatch, axis: AxisId, field: nat)
    requires
        field != axis_field(axis) || !field_applies(batch, field),
    ensures
        leaves_field(axis_writes(batch, axis), field),
{
}

/// In a delta batch a field whose bit is clear in `changed_fields` is not
/// written, whether or not the batch carries a value for it: no write of the
/// batch changes that field.
pub proof fn lemma_delta_leaves_clear_fields(batch: ProtoControllerStateBatch, field: nat)
    requires
        batch.update_type != 0,
        field <= 8,
        match batch.changed_fields {
            Some(mask) => mask & field_bit(field) == 0,
            None => true,
        },
    ensures
        leaves_field(batch_writes(batch), field),
{
    if batch.changed_fields is Some {
        assert(!field_applies(batch, field));
        let run0 = seq![DeviceWrite::Sync];
        let run1 = run0 + buttons_part(batch);
        let run2 = run1 + axis_writes(batch, AxisId::LeftStickX);
        let run3 = run2 + axis_writes(batch, AxisId::LeftStickY);
        let run4 = run3 + axis_writes(batch, AxisId::RightStickX);
        let run5 = run4 + axis_writes(batch, AxisId::RightStickY);
        let run6 = run5 + axis_writes(batch, AxisId::LowerLeftTrigger);
        let run7 = run6 + axis_writes(batch, AxisId::LowerRightTrigger);
        let run8 = run7 + axis_writes(batch, AxisId::DPadX);
        assert(leaves_field(run0, field));
        if field != 0 {
            lemma_button_writes_fields(batch.button_changed_mask@, field);
        }
        assert(leaves_field(buttons_part(batch), field));
        lemma_leaves_field_concat(run0, buttons_part(batch), field);
        lemma_axis_writes_fields(batch, AxisId::LeftStickX, field);
        lemma_leaves_field_concat(run1, axis_writes(batch, AxisId::LeftStickX), field);
        lemma_axis_writes_fields(batch, AxisId::LeftStickY, field);
        lemma_leaves_field_concat(run2, axis_writes(batch, AxisId::LeftStickY), field);
        lemma_axis_writes_fields(batch, AxisId::RightStickX, field);
        lemma_leaves_field_concat(run3, axis_writes(batch, AxisId::RightStickX), field);
        lemma_axis_writes_fields(batch, AxisId::RightStickY, field);
        lemma_leaves_field_concat(run4, axis_writes(batch, AxisId::RightStickY), field);
        lemma_axis_writes_fields(batch, AxisId::LowerLeftTrigger, field);
        lemma_leaves_field_concat(run5, axis_writes(batch, AxisId::LowerLeftTrigger), field);
        lemma_axis_writes_fields(batch, AxisId::LowerRightTrigger, field);
        lemma_leaves_field_concat(run6, axis_writes(batch, AxisId::LowerRightTrigger), field);
        lemma_axis_writes_fields(batch, AxisId::DPadX, field);
        lemma_leaves_field_concat(run7, axis_writes(batch, AxisId::DPadX), field);
        lemma_axis_writes_fields(batch, AxisId::DPadY, field);
        lemma_leaves_field_concat(run8, axis_writes(batch, AxisId::DPadY), field);
    }
}

/// What the controller task has to do for one command.
#[derive(Debug, PartialEq, Eq)]
pub enum ControllerStep {
    /// Serve an attach request as planned. Where the plan makes a new slot,
    /// the table records it only once `record_attach` is called.
    Attach { request: ProtoControllerAttach, plan: AttachPlan },
    /// The slot was removed from the table: drop its device.
    Detached { slot: u32 },
    /// A detach named a slot that is not live.
    DetachMissed { session_slot: i32 },
    /// A client is gone. These of its slots were removed from the table, in
    /// this order: drop their devices. The others it listed were not live.
    Disconnected { notice: ProtoClientDisconnected, removed: Vec<u32> },
    /// Perform these writes on the device of this slot, in order.
    Input { slot: u32, writes: Vec<DeviceWrite> },
    /// A batch of input named a slot that is not live.
    InputMissed { session_slot: i32 },
    /// The command is none for the controllers.
    Ignored,
}

/// The table after a command has been taken. An attach changes nothing yet.
pub open spec fn table_after(m: Map<u32, ControllerSlot>, command: Payload) -> Map<
    u32,
    ControllerSlot,
> {
    match command {
        Payload::ControllerDetach(data) => m.remove(data.session_slot as u32),
        Payload::ClientDisconnected(data) => after_removal(m, data.controller_slots@),
        _ => m,
    }
}

/// `step` is what the command asks for against the table `m`.
pub open spec fn is_step_for(m: Map<u32, ControllerSlot>, command: Payload, step: ControllerStep) -> bool {
    match command {
        Payload::ControllerAttach(data) => step == (ControllerStep::Attach {
            request: data,
            plan: attach_plan(m, data.id@, data.session_id@, data.session_slot as u32),
        }),
        Payload::ControllerDetach(data) => if m.contains_key(data.session_slot as u32) {
            step == (ControllerStep::Detached { slot: data.session_slot as u32 })
        } else {
            step == (ControllerStep::DetachMissed { session_slot: data.session_slot })
        },
        Payload::ClientDisconnected(data) => match step {
            ControllerStep::Disconnected { notice, removed } => notice == data && removed@
                == removed_slots(m, data.controller_slots@),
            _ => false,
        },
        Payload::ControllerStateBatch(data) => if m.contains_key(data.session_slot as u32) {
            match step {
                ControllerStep::Input { slot, writes } => slot == data.session_slot as u32
                    && writes@ == batch_writes(data),
                _ => false,
            }
        } else {
            step == (ControllerStep::InputMissed { session_slot: data.session_slot })
        },
        _ => step == ControllerStep::Ignored,
    }
}

impl SlotTable {
    /// Takes one command: changes the table where the command removes
    /// slots, and says what is to be done with the devices.
    pub fn command_step(&mut self, command: Payload) -> (step: ControllerStep)
        requires
            old(self).wf(),
        ensures
            final(self).wf(),
            final(self)@ == table_after(old(self)@, command),
            is_step_for(old(self)@, command, step),
    {
        match command {
            Payload::ControllerAttach(data) => {
                let plan = self.plan_attach(&data);
                ControllerStep::Attach { request: data, plan }
            },
            Payload::ControllerDetach(data) => {
                if self.detach(data.session_slot) {
                    let slot: u32 = #[verifier::truncate]
                    (data.session_slot as u32);
                    ControllerStep::Detached { slot }
                } else {
                    ControllerStep::DetachMissed { session_slot: data.session_slot }
                }
            },
            Payload::ClientDisconnected(data) => {
                let removed = self.disconnect(&data.controller_slots);
                ControllerStep::Disconnected { notice: data, removed }
            },
            Payload::ControllerStateBatch(data) => {
                match self.route_state_batch(&data) {
                    Some((slot, writes)) => ControllerStep::Input { slot, writes },
                    None => ControllerStep::InputMissed { session_slot: data.session_slot },
                }
            },
            _ => ControllerStep::Ignored,
        }
    }
}

} // verus!
