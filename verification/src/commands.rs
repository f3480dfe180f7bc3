//! The undo log: rectangular before/after patches of one layer, and a
//! linear history of them that is cut off where a new branch starts.

use vstd::prelude::*;
use crate::image_store::{layer_sized, lemma_repainted_state, pixel_state, repainted, ImageStore};
use crate::layers::Layer;
use crate::raster::{Color, Grid, PixelBuffer};

verus! {

/// What copying `patch` to `(x, y)` makes of a layer's pixels: the paste
/// where the patch lies inside the layer, the same pixels where it does not.
pub open spec fn patched(g: Grid<Color>, patch: Grid<Color>, x: u32, y: u32) -> Grid<Color> {
    if g.admits(patch, x as int, y as int) {
        g.paste(patch, x as int, y as int)
    } else {
        g
    }
}

/// `after` is what copying `patch` to `(x, y)` of layer `idx` makes of the
/// stack `before`. A layer index out of range and a layer without pixels
/// leave the stack as it is.
pub open spec fn pasted(
    before: Seq<Layer>,
    after: Seq<Layer>,
    idx: usize,
    patch: Grid<Color>,
    x: u32,
    y: u32,
) -> bool {
    if idx < before.len() && before[idx as int].data.pixels().is_some() {
        repainted(
            before,
            after,
            idx as int,
            patched(before[idx as int].data.pixels().unwrap(), patch, x, y),
        )
    } else {
        after == before
    }
}

/// The pixels of a stack, layer by layer.
pub type PixelState = Seq<Option<Grid<Color>>>;

/// What copying `patch` to `(x, y)` of layer `idx` makes of the pixels of a
/// stack.
pub open spec fn state_patched(
    state: PixelState,
    idx: usize,
    patch: Grid<Color>,
    x: u32,
    y: u32,
) -> PixelState {
    if idx < state.len() && state[idx as int].is_some() {
        state.update(idx as int, Some(patched(state[idx as int].unwrap(), patch, x, y)))
    } else {
        state
    }
}

/// A paste into a stack is the same paste into its pixels.
pub proof fn lemma_pasted_state(
    before: Seq<Layer>,
    after: Seq<Layer>,
    idx: usize,
    patch: Grid<Color>,
    x: u32,
    y: u32,
)
    requires
        pasted(before, after, idx, patch, x, y),
    ensures
        pixel_state(after) == state_patched(pixel_state(before), idx, patch, x, y),
{
    if idx < before.len() && before[idx as int].data.pixels().is_some() {
        lemma_repainted_state(
            before,
            after,
            idx as int,
            patched(before[idx as int].data.pixels().unwrap(), patch, x, y),
        );
    }
}

/// What every undoable edit offers: a name, and the two directions. Both
/// directions leave everything but the layers as it is and keep a
/// well-formed store well formed.
pub trait Command {
    /// What undoing makes of the layers.
    spec fn undoes(&self, before: Seq<Layer>, after: Seq<Layer>) -> bool;

    /// What redoing makes of the layers.
    spec fn redoes(&self, before: Seq<Layer>, after: Seq<Layer>) -> bool;

    fn undo(&self, image: &mut ImageStore)
        ensures
            self.undoes(old(image).layers@, final(image).layers@),
            final(image).same_canvas(old(image)),
            final(image).composite_dirty == old(image).composite_dirty,
            old(image).wf() ==> final(image).wf(),
    ;

    fn redo(&self, image: &mut ImageStore)
        ensures
            self.redoes(old(image).layers@, final(image).layers@),
            final(image).same_canvas(old(image)),
            final(image).composite_dirty == old(image).composite_dirty,
            old(image).wf() ==> final(image).wf(),
    ;

    /// The display name of the edit, as contracts see it.
    spec fn label(&self) -> Seq<char>;

    /// The display name of the edit.
    fn name(&self) -> (n: &String)
        ensures
            n@ == self.label(),
    ;
}

/// One undoable edit: the block of a layer before and after it, anchored
/// at `(x, y)`.
pub struct PatchCommand {
    pub name: String,
    pub layer_index: usize,
    pub x: u32,
    pub y: u32,
    pub old_patch: PixelBuffer,
    pub new_patch: PixelBuffer,
}

impl PatchCommand {
    /// The display name of the edit.
    pub fn name(&self) -> (n: &String)
        ensures
            *n == self.name,
    {
        &self.name
    }

    fn paste(image: &mut ImageStore, idx: usize, patch: &PixelBuffer, x: u32, y: u32)
        ensures
            pasted(old(image).layers@, final(image).layers@, idx, patch@, x, y),
            final(image).same_canvas(old(image)),
            final(image).composite_dirty == old(image).composite_dirty,
            old(image).wf() ==> final(image).wf(),
    {
        let ghost before = *image;
        if idx < image.layers.len() {
            match image.layers[idx].data.buffer_mut() {
                Some(img) => {
                    let _ = img.copy_from(patch, x, y);
                },
                None => {},
            }
        }
        proof {
            if idx < before.layers@.len() {
                if before.layers@[idx as int].data.raw().is_none() {
                    assert(image.layers@ =~= before.layers@);
                } else {
                    assert(image.layers@[idx as int].data.raw().is_some());
                }
            }
            if before.wf() {
                assert forall|i: int| 0 <= i < image.layers@.len() implies layer_sized(
                    #[trigger] image.layers@[i],
                    image.width as int,
                    image.height as int,
                ) by {
                    assert(layer_sized(before.layers@[i], before.width as int, before.height as int));
                }
            }
        }
    }

    /// Copies the "before" block back into the target layer. A layer index
    /// out of range, a vector layer and a block that does not fit leave the
    /// store untouched.
    pub fn undo(&self, image: &mut ImageStore)
        ensures
            pasted(
                old(image).layers@,
                final(image).layers@,
                self.layer_index,
                self.old_patch@,
                self.x,
                self.y,
            ),
            final(image).same_canvas(old(image)),
            final(image).composite_dirty == old(image).composite_dirty,
            old(image).wf() ==> final(image).wf(),
    {
        Self::paste(image, self.layer_index, &self.old_patch, self.x, self.y);
    }

    /// Copies the "after" block into the target layer, with the same guards.
    pub fn redo(&self, image: &mut ImageStore)
        ensures
            pasted(
                old(image).layers@,
                final(image).layers@,
                self.layer_index,
                self.new_patch@,
                self.x,
                self.y,
            ),
            final(image).same_canvas(old(image)),
            final(image).composite_dirty == old(image).composite_dirty,
            old(image).wf() ==> final(image).wf(),
    {
        Self::paste(image, self.layer_index, &self.new_patch, self.x, self.y);
    }
}

impl PatchCommand {
    /// The pixels of a stack after this command has been undone.
    pub open spec fn undone(&self, state: PixelState) -> PixelState {
        state_patched(state, self.layer_index, self.old_patch@, self.x, self.y)
    }

    /// The pixels of a stack after this command has been redone.
    pub open spec fn redone(&self, state: PixelState) -> PixelState {
        state_patched(state, self.layer_index, self.new_patch@, self.x, self.y)
    }

    /// Does the command record the step from `before` to `after`? Its
    /// block lies inside the target layer, its "before" patch is that
    /// block as it was, and `after` is `before` with the "after" patch,
    /// which has the same size, in the block's place.
    pub open spec fn records(&self, before: PixelState, after: PixelState) -> bool {
        &&& self.layer_index < before.len()
        &&& before[self.layer_index as int] matches Some(t) && {
            &&& t.wf()
            &&& t.admits(self.old_patch@, self.x as int, self.y as int)
            &&& self.new_patch@.width == self.old_patch@.width
            &&& self.new_patch@.height == self.old_patch@.height
            &&& self.old_patch@ == t.crop(
                self.x as int,
                self.y as int,
                self.old_patch@.width,
                self.old_patch@.height,
            )
            &&& after == before.update(
                self.layer_index as int,
                Some(t.paste(self.new_patch@, self.x as int, self.y as int)),
            )
        }
    }

    /// Undoing a command restores the pixels that it found, and redoing it
    /// restores the pixels that it left.
    pub proof fn lemma_round_trip(&self, before: PixelState, after: PixelState)
        requires
            self.records(before, after),
        ensures
            self.undone(after) == before,
            self.redone(before) == after,
    {
        let idx = self.layer_index as int;
        let t = before[idx].unwrap();
        let x = self.x as int;
        let y = self.y as int;
        let mid = t.paste(self.new_patch@, x, y);
        let back = mid.paste(self.old_patch@, x, y);
        assert(mid.admits(self.old_patch@, x, y));
        Grid::lemma_equal(back, t);
        assert(self.undone(after) =~= before);
    }
}

/// Do the commands record, one after the other, the steps that lead
/// through the states? State `k` is the one that `k` applied commands give.
pub open spec fn chain(commands: Seq<PatchCommand>, states: Seq<PixelState>) -> bool {
    &&& states.len() == commands.len() + 1
    &&& forall|k: int|
        0 <= k < commands.len() ==> (#[trigger] commands[k]).records(states[k], states[k + 1])
}

/// The pixels after `n` undo steps from a cursor.
pub open spec fn undo_many(
    commands: Seq<PatchCommand>,
    state: PixelState,
    cursor: int,
    n: nat,
) -> PixelState
    decreases n,
{
    if n == 0 || cursor <= 0 {
        state
    } else {
        undo_many(commands, commands[cursor - 1].undone(state), cursor - 1, (n - 1) as nat)
    }
}

/// The pixels after `n` redo steps from a cursor.
pub open spec fn redo_many(
    commands: Seq<PatchCommand>,
    state: PixelState,
    cursor: int,
    n: nat,
) -> PixelState
    decreases n,
{
    if n == 0 || cursor >= commands.len() {
        state
    } else {
        redo_many(commands, commands[cursor].redone(state), cursor + 1, (n - 1) as nat)
    }
}

/// `n` undo steps lead back to the state of `n` commands earlier.
pub proof fn lemma_undo_many(
    commands: Seq<PatchCommand>,
    states: Seq<PixelState>,
    cursor: int,
    n: nat,
)
    requires
        chain(commands, states),
        0 <= n <= cursor <= commands.len(),
    ensures
        undo_many(commands, states[cursor], cursor, n) == states[cursor - n],
    decreases n,
{
    if n > 0 {
        commands[cursor - 1].lemma_round_trip(states[cursor - 1], states[cursor]);
        lemma_undo_many(commands, states, cursor - 1, (n - 1) as nat);
    }
}

/// `n` redo steps lead on to the state of `n` commands later.
pub proof fn lemma_redo_many(
    commands: Seq<PatchCommand>,
    states: Seq<PixelState>,
    cursor: int,
    n: nat,
)
    requires
        chain(commands, states),
        0 <= cursor,
        cursor + n <= commands.len(),
    ensures
        redo_many(commands, states[cursor], cursor, n) == states[cursor + n],
    decreases n,
{
    if n > 0 {
        commands[cursor].lemma_round_trip(states[cursor], states[cursor + 1]);
        lemma_redo_many(commands, states, cursor + 1, (n - 1) as nat);
    }
}

/// After any sequence of recorded edits, `n` undo steps followed by `n`
/// redo steps restore every layer's pixels exactly.
pub proof fn lemma_undo_redo_round_trip(
    commands: Seq<PatchCommand>,
    states: Seq<PixelState>,
    n: nat,
)
    requires
        chain(commands, states),
        n <= commands.len(),
    ensures
        redo_many(
            commands,
            undo_many(commands, states[commands.len() as int], commands.len() as int, n),
            commands.len() - n,
            n,
        ) == states[commands.len() as int],
{
    lemma_undo_many(commands, states, commands.len() as int, n);
    lemma_redo_many(commands, states, commands.len() - n, n);
}

impl Command for PatchCommand {
    open spec fn undoes(&self, before: Seq<Layer>, after: Seq<Layer>) -> bool {
        pasted(before, after, self.layer_index, self.old_patch@, self.x, self.y)
    }

    open spec fn redoes(&self, before: Seq<Layer>, after: Seq<Layer>) -> bool {
        pasted(before, after, self.layer_index, self.new_patch@, self.x, self.y)
    }

    fn undo(&self, image: &mut ImageStore) {
        PatchCommand::undo(self, image)
    }

    fn redo(&self, image: &mut ImageStore) {
        PatchCommand::redo(self, image)
    }

    open spec fn label(&self) -> Seq<char> {
        self.name@
    }

    fn name(&self) -> (n: &String)
        ensures
            *n == self.name,
    {
        PatchCommand::name(self)
    }
}

/// The history as contracts see it: the commands in order, and how many of
/// them are applied.
pub struct History {
    pub commands: Seq<PatchCommand>,
    pub cursor: int,
}

impl History {
    /// The cursor lies within the log.
    pub open spec fn wf(self) -> bool {
        0 <= self.cursor <= self.commands.len()
    }

    /// The history after a push: the redo entries are gone, the new command
    /// is last and applied.
    pub open spec fn pushed(self, command: PatchCommand) -> History {
        History { commands: self.commands.take(self.cursor).push(command), cursor: self.cursor + 1 }
    }

    /// The history with the cursor one step back, if it can go back.
    pub open spec fn stepped_back(self) -> History {
        if self.cursor > 0 {
            History { cursor: self.cursor - 1, ..self }
        } else {
            self
        }
    }

    /// The history with the cursor one step forward, if it can go forward.
    pub open spec fn stepped_forward(self) -> History {
        if self.cursor < self.commands.len() {
            History { cursor: self.cursor + 1, ..self }
        } else {
            self
        }
    }

    pub open spec fn can_undo(self) -> bool {
        self.cursor > 0
    }

    /// What an undo step makes of the store: the last applied command's
    /// "before" patch is pasted and the store is marked dirty. With
    /// nothing to undo the store stays as it is.
    pub open spec fn undo_result(self, before: ImageStore, after: ImageStore) -> bool {
        if self.can_undo() {
            let cmd = self.commands[self.cursor - 1];
            &&& pasted(before.layers@, after.layers@, cmd.layer_index, cmd.old_patch@, cmd.x, cmd.y)
            &&& pixel_state(after.layers@) == cmd.undone(pixel_state(before.layers@))
            &&& after.same_canvas(&before)
            &&& after.composite_dirty
        } else {
            after == before
        }
    }

    /// What a redo step makes of the store: the next command's "after"
    /// patch is pasted and the store is marked dirty. With nothing to redo
    /// the store stays as it is.
    pub open spec fn redo_result(self, before: ImageStore, after: ImageStore) -> bool {
        if self.can_redo() {
            let cmd = self.commands[self.cursor];
            &&& pasted(before.layers@, after.layers@, cmd.layer_index, cmd.new_patch@, cmd.x, cmd.y)
            &&& pixel_state(after.layers@) == cmd.redone(pixel_state(before.layers@))
            &&& after.same_canvas(&before)
            &&& after.composite_dirty
        } else {
            after == before
        }
    }

    /// After an undo step and a push, nothing can be redone: the command
    /// that was undone and everything after it have left the log, and
    /// the new command is its last entry.
    pub proof fn lemma_branch_discards_future(self, command: PatchCommand)
        requires
            self.wf(),
            self.can_undo(),
        ensures
            !self.stepped_back().pushed(command).can_redo(),
            self.stepped_back().pushed(command).wf(),
            self.stepped_back().pushed(command).commands == self.commands.take(self.cursor - 1).push(
                command,
            ),
            self.stepped_back().pushed(command).commands.len() == self.cursor,
            self.stepped_back().pushed(command).commands.last() == command,
    {
    }

    /// After a push nothing can be redone, whatever came before.
    pub proof fn lemma_push_ends_log(self, command: PatchCommand)
        requires
            self.wf(),
        ensures
            !self.pushed(command).can_redo(),
            self.pushed(command).can_undo(),
            self.pushed(command).wf(),
    {
    }

    pub open spec fn can_redo(self) -> bool {
        self.cursor < self.commands.len()
    }
}

/// A linear undo/redo log. Commands before the cursor are applied; those
/// from the cursor on are the redo entries.
pub struct CommandStack {
    commands: Vec<PatchCommand>,
    cursor: usize,
}

impl View for CommandStack {
    type V = History;

    closed spec fn view(&self) -> History {
        History { commands: self.commands@, cursor: self.cursor as int }
    }
}

impl CommandStack {
    /// How many commands are applied.
    pub fn cursor(&self) -> (c: usize)
        ensures
            c == self@.cursor,
    {
        self.cursor
    }

    /// How many commands the log holds, applied or not.
    pub fn len(&self) -> (n: usize)
        ensures
            n == self@.commands.len(),
    {
        self.commands.len()
    }

    /// An empty log.
    pub fn new() -> (stack: CommandStack)
        ensures
            stack@.commands.len() == 0,
            stack@.cursor == 0,
            stack@.wf(),
    {
        CommandStack { commands: Vec::new(), cursor: 0 }
    }

    /// Drops every redo entry, appends `command` and moves the cursor past it.
    pub fn push(&mut self, command: PatchCommand)
        requires
            old(self)@.wf(),
            old(self)@.cursor < usize::MAX,
        ensures
            final(self)@ == old(self)@.pushed(command),
            final(self)@.wf(),
            !final(self)@.can_redo(),
    {
        if self.cursor < self.commands.len() {
            self.commands.truncate(self.cursor);
        }
        assert(self.commands@ =~= old(self).commands@.take(old(self).cursor as int));
        self.commands.push(command);
        self.cursor += 1;
    }

    /// Steps back over the last applied command, if there is one: restores
    /// its "before" block and marks the store dirty.
    pub fn undo(&mut self, image: &mut ImageStore)
        requires
            old(self)@.wf(),
        ensures
            final(self)@.wf(),
            final(self)@ == old(self)@.stepped_back(),
            old(self)@.undo_result(*old(image), *final(image)),
            old(image).wf() ==> final(image).wf(),
    {
        if self.cursor > 0 {
            self.cursor -= 1;
            self.commands[self.cursor].undo(image);
            proof {
                let cmd = self.commands@[self.cursor as int];
                lemma_pasted_state(
                    old(image).layers@,
                    image.layers@,
                    cmd.layer_index,
                    cmd.old_patch@,
                    cmd.x,
                    cmd.y,
                );
            }
            image.mark_dirty();
        }
    }

    /// Steps forward over the next redo entry, if there is one: writes its
    /// "after" block and marks the store dirty.
    pub fn redo(&mut self, image: &mut ImageStore)
        requires
            old(self)@.wf(),
        ensures
            final(self)@.wf(),
            final(self)@ == old(self)@.stepped_forward(),
            old(self)@.redo_result(*old(image), *final(image)),
            old(image).wf() ==> final(image).wf(),
    {
        if self.cursor < self.commands.len() {
            self.commands[self.cursor].redo(image);
            proof {
                let cmd = self.commands@[self.cursor as int];
                lemma_pasted_state(
                    old(image).layers@,
                    image.layers@,
                    cmd.layer_index,
                    cmd.new_patch@,
                    cmd.x,
                    cmd.y,
                );
            }
            self.cursor += 1;
            image.mark_dirty();
        }
    }

    /// Is there an applied command to step back over?
    pub fn can_undo(&self) -> (b: bool)
        ensures
            b == self@.can_undo(),
    {
        self.cursor > 0
    }

    /// Is there a redo entry to step forward over?
    pub fn can_redo(&self) -> (b: bool)
        ensures
            b == self@.can_redo(),
    {
        self.cursor < self.commands.len()
    }
}

} // verus!
