//! The command/event bus: two one-directional typed queues, a bounded one
//! carrying commands from the UI thread to the patching worker and an
//! unbounded one carrying UI updates back.
//!
//! Each queue owns both of its channel endpoints, so its contents are a
//! plain sequence: submission appends at the back, reception takes from the
//! front, nothing is reordered, duplicated or dropped. The bounded queue
//! refuses a submission only while it is full; the unbounded queue never
//! refuses one.

use vstd::prelude::*;

use crate::ui::{ui_command_script, UiCommand};

verus! {

/// A command submitted to the patching worker, consumed exactly once and in
/// submission order.
#[derive(Debug, PartialEq, Eq)]
pub enum PatcherCommand {
    /// Begin an update cycle.
    StartUpdate,
    /// Ask the worker to cancel the running update; cooperation is advisory.
    CancelUpdate,
    /// Apply one manually selected patch archive, by path.
    ApplyPatch(String),
    /// Shut the worker down.
    Quit,
}

/// The bounded commands queue (UI thread to worker).
#[verifier::external_body]
pub struct CommandBus {
    tx: flume::Sender<PatcherCommand>,
    rx: flume::Receiver<PatcherCommand>,
}

/// The commands waiting in the queue, front first.
pub uninterp spec fn bus_view(b: CommandBus) -> Seq<PatcherCommand>;

/// The fixed capacity the queue was created with.
pub uninterp spec fn bus_capacity(b: CommandBus) -> nat;

impl CommandBus {
    /// Relies on `flume::bounded`: creates an empty queue of the given
    /// fixed capacity.
    #[verifier::external_body]
    pub fn new(capacity: usize) -> (b: CommandBus)
        ensures
            bus_view(b) == Seq::<PatcherCommand>::empty(),
            bus_capacity(b) == capacity,
    {
        let (tx, rx) = flume::bounded(capacity);
        CommandBus { tx, rx }
    }

    /// Relies on `flume::Sender::try_send`: appends the command unless the
    /// queue is full; this queue's receiver lives in the same structure, so
    /// the disconnected case cannot arise.
    #[verifier::external_body]
    pub fn try_submit(&mut self, cmd: PatcherCommand) -> (accepted: bool)
        ensures
            bus_capacity(*final(self)) == bus_capacity(*old(self)),
            accepted == (bus_view(*old(self)).len() < bus_capacity(*old(self))),
            accepted ==> bus_view(*final(self)) == bus_view(*old(self)).push(cmd),
            !accepted ==> bus_view(*final(self)) == bus_view(*old(self)),
    {
        self.tx.try_send(cmd).is_ok()
    }

    /// Relies on `flume::Receiver::try_recv`: takes the front command, or
    /// reports the queue empty; the sender lives in the same structure, so
    /// the disconnected case cannot arise.
    #[verifier::external_body]
    pub fn try_recv(&mut self) -> (r: Option<PatcherCommand>)
        ensures
            bus_capacity(*final(self)) == bus_capacity(*old(self)),
            (r is None) <==> bus_view(*old(self)).len() == 0,
            r matches Some(c) ==> c == bus_view(*old(self))[0] && bus_view(*final(self))
                == bus_view(*old(self)).drop_first(),
            r is None ==> bus_view(*final(self)) == bus_view(*old(self)),
    {
        self.rx.try_recv().ok()
    }

    /// Relies on `flume::Receiver::recv`: takes the front command of a
    /// non-empty queue, which is there already, so the call does not block.
    #[verifier::external_body]
    pub fn recv_front(&mut self) -> (c: PatcherCommand)
        requires
            bus_view(*old(self)).len() > 0,
        ensures
            bus_capacity(*final(self)) == bus_capacity(*old(self)),
            c == bus_view(*old(self))[0],
            bus_view(*final(self)) == bus_view(*old(self)).drop_first(),
    {
        self.rx.recv().unwrap()
    }

    /// Relies on `flume::Receiver::len`: the number of waiting commands.
    #[verifier::external_body]
    pub fn len(&self) -> (n: usize)
        ensures
            n == bus_view(*self).len(),
    {
        self.rx.len()
    }

    /// Relies on `flume::Sender::capacity`: the fixed capacity; this queue
    /// is always bounded, so the unbounded case cannot arise.
    #[verifier::external_body]
    pub fn capacity(&self) -> (n: usize)
        ensures
            n == bus_capacity(*self),
    {
        self.tx.capacity().unwrap_or(0)
    }

    /// Takes every waiting command, in submission order, leaving the queue
    /// empty.
    pub fn drain(&mut self) -> (observed: Vec<PatcherCommand>)
        ensures
            bus_capacity(*final(self)) == bus_capacity(*old(self)),
            observed@ == bus_view(*old(self)),
            bus_view(*final(self)).len() == 0,
    {
        let mut observed: Vec<PatcherCommand> = Vec::new();
        while self.len() > 0
            invariant
                bus_capacity(*self) == bus_capacity(*old(self)),
                observed@ + bus_view(*self) =~= bus_view(*old(self)),
            decreases bus_view(*self).len(),
        {
            let c = self.recv_front();
            observed.push(c);
        }
        assert(observed@ =~= bus_view(*old(self)));
        observed
    }
}

/// Copies a command.
pub fn clone_command(c: &PatcherCommand) -> (r: PatcherCommand)
    ensures
        r == *c,
{
    match c {
        PatcherCommand::StartUpdate => PatcherCommand::StartUpdate,
        PatcherCommand::CancelUpdate => PatcherCommand::CancelUpdate,
        PatcherCommand::ApplyPatch(path) => PatcherCommand::ApplyPatch(path.clone()),
        PatcherCommand::Quit => PatcherCommand::Quit,
    }
}

/// FIFO law of the commands queue: every command sequence that fits the
/// remaining capacity is accepted in full, and the receiver then observes
/// the queue's earlier contents followed by exactly that sequence, in
/// submission order.
pub fn submit_then_drain(bus: &mut CommandBus, cmds: &Vec<PatcherCommand>) -> (observed: Vec<
    PatcherCommand,
>)
    requires
        bus_view(*old(bus)).len() + cmds@.len() <= bus_capacity(*old(bus)),
    ensures
        observed@ == bus_view(*old(bus)) + cmds@,
        bus_view(*final(bus)).len() == 0,
{
    let mut i: usize = 0;
    while i < cmds.len()
        invariant
            i <= cmds.len(),
            bus_capacity(*bus) == bus_capacity(*old(bus)),
            bus_view(*old(bus)).len() + cmds@.len() <= bus_capacity(*old(bus)),
            bus_view(*bus) =~= bus_view(*old(bus)) + cmds@.take(i as int),
        decreases cmds.len() - i,
    {
        let accepted = bus.try_submit(clone_command(&cmds[i]));
        proof {
            assert(accepted);
            assert((bus_view(*old(bus)) + cmds@.take(i as int)).push(cmds@[i as int])
                =~= bus_view(*old(bus)) + cmds@.take(i + 1));
        }
        i = i + 1;
    }
    proof {
        assert(bus_view(*bus) =~= bus_view(*old(bus)) + cmds@);
    }
    bus.drain()
}

/// The unbounded UI-updates queue (worker to UI thread), tracked by the
/// script expressions it carries.
#[verifier::external_body]
pub struct UiBus {
    tx: flume::Sender<UiCommand>,
    rx: flume::Receiver<UiCommand>,
}

/// The script expressions waiting in the queue, front first.
pub uninterp spec fn ui_view(b: UiBus) -> Seq<Seq<char>>;

impl UiBus {
    /// Relies on `flume::unbounded`: creates an empty queue without a
    /// capacity bound.
    #[verifier::external_body]
    pub fn new() -> (b: UiBus)
        ensures
            ui_view(b) == Seq::<Seq<char>>::empty(),
    {
        let (tx, rx) = flume::unbounded();
        UiBus { tx, rx }
    }

    /// Relies on `flume::Sender::send`: appends to an unbounded queue
    /// without blocking; the receiver lives in the same structure, so the
    /// disconnected case cannot arise.
    #[verifier::external_body]
    pub fn push(&mut self, u: UiCommand)
        ensures
            ui_view(*final(self)) == ui_view(*old(self)).push(ui_command_script(u)),
    {
        let _ = self.tx.send(u);
    }

    /// Relies on `flume::Receiver::try_recv`: takes the front update, or
    /// reports the queue empty; the sender lives in the same structure, so
    /// the disconnected case cannot arise.
    #[verifier::external_body]
    pub fn try_recv(&mut self) -> (r: Option<UiCommand>)
        ensures
            (r is None) <==> ui_view(*old(self)).len() == 0,
            r matches Some(u) ==> ui_command_script(u) == ui_view(*old(self))[0] && ui_view(
                *final(self),
            ) == ui_view(*old(self)).drop_first(),
            r is None ==> ui_view(*final(self)) == ui_view(*old(self)),
    {
        self.rx.try_recv().ok()
    }

    /// Relies on `flume::Receiver::len`: the number of waiting updates.
    #[verifier::external_body]
    pub fn len(&self) -> (n: usize)
        ensures
            n == ui_view(*self).len(),
    {
        self.rx.len()
    }

    /// Relies on `flume::Receiver::recv`: takes the front update of a
    /// non-empty queue, which is there already, so the call does not block.
    #[verifier::external_body]
    pub fn recv_front(&mut self) -> (u: UiCommand)
        requires
            ui_view(*old(self)).len() > 0,
        ensures
            ui_command_script(u) == ui_view(*old(self))[0],
            ui_view(*final(self)) == ui_view(*old(self)).drop_first(),
    {
        self.rx.recv().unwrap()
    }

    /// Takes every waiting update, in enqueue order, leaving the queue
    /// empty: the once-per-tick drain of the UI thread, which never blocks
    /// its producers.
    pub fn drain_all(&mut self) -> (updates: Vec<UiCommand>)
        ensures
            updates@.len() == ui_view(*old(self)).len(),
            forall|i: int|
                0 <= i < updates@.len() ==> ui_command_script(updates@[i]) == ui_view(
                    *old(self),
                )[i],
            ui_view(*final(self)).len() == 0,
    {
        let mut updates: Vec<UiCommand> = Vec::new();
        while self.len() > 0
            invariant
                updates@.map_values(|u: UiCommand| ui_command_script(u)) + ui_view(*self)
                    =~= ui_view(*old(self)),
            decreases ui_view(*self).len(),
        {
            let u = self.recv_front();
            updates.push(u);
        }
        proof {
            let scripts = updates@.map_values(|u: UiCommand| ui_command_script(u));
            assert(scripts =~= ui_view(*old(self)));
            assert(forall|i: int|
                0 <= i < updates@.len() ==> ui_command_script(updates@[i]) == scripts[i]);
        }
        updates
    }
}

} // verus!
