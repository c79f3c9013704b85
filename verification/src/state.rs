//! The viewer's state as a value, and each thing that can happen to it as a
//! function from the state before to the state after.

use crate::aspect::{lemma_fit_preserves_aspect, lemma_fit_within_unit, Scale};
use crate::decimal::decimal;
use crate::error::ViewerError;
use crate::image_renderer::ImageRenderer;
use crate::signature::FileSignature;
use crate::stable_renderer::StableAspectRatioImageRenderer;
use crate::texture::Texture;
use vstd::arithmetic::div_mod::lemma_fundamental_div_mod_converse_mod;
use vstd::prelude::*;

verus! {

/// The time between two looks at the current picture's file, in
/// nanoseconds.
pub const POLL_INTERVAL_NANOS: u64 = 1_000_000_000;

/// One picture of the list as a value: the texture it was uploaded to, the
/// path it was read from, and what was known of the file then.
pub struct Entry {
    pub texture: Texture,
    pub path: Seq<char>,
    pub sig: FileSignature,
}

/// The keys that the viewer listens to.
#[derive(Debug, Clone, Copy, PartialEq, Eq, Structural)]
pub enum Key {
    Escape,
    Left,
    Right,
    X,
    /// Any other key.
    Other,
}

/// What the owner of the window has to do after a key.
#[derive(Debug, Clone, Copy, PartialEq, Eq, Structural)]
pub struct Reaction {
    /// Leave the event loop.
    pub exit: bool,
    /// Set the window's title anew.
    pub retitle: bool,
    /// Draw the window again.
    pub redraw: bool,
    /// Why the key did less than it was pressed for, if it did.
    pub refused: Option<ViewerError>,
}

/// The viewer's state as a value.
pub struct ViewerState {
    pub entries: Seq<Entry>,
    pub current: int,
    pub window_size: [i32; 2],
    pub cursor_position: [i32; 2],
    pub renderer: StableAspectRatioImageRenderer,
    /// Nanoseconds since the file was last looked at.
    pub elapsed: nat,
}

impl ViewerState {
    /// There is a current picture, the renderer is in order, knows the
    /// window's size and has no scale laid over the fit, and the next look
    /// at the file is not overdue.
    pub open spec fn wf(self) -> bool {
        &&& 0 <= self.current < self.entries.len()
        &&& self.renderer.wf()
        &&& self.renderer.scale == Scale::identity()
        &&& self.window_size[0] == self.renderer.window_size[0]
        &&& self.window_size[1] == self.renderer.window_size[1]
        &&& self.elapsed < POLL_INTERVAL_NANOS
    }

    /// Why a viewer cannot start on these pictures, if it cannot: there is
    /// none, or the first of them cannot be shown.
    pub open spec fn unstarted(entries: Seq<Entry>) -> Option<ViewerError> {
        if entries.len() == 0 {
            Some(ViewerError::NoImages)
        } else {
            entries[0].texture.refusal()
        }
    }

    /// The state in which the viewer starts: the first picture is the
    /// current one and is shown, in a window of one pixel.
    pub open spec fn initial(entries: Seq<Entry>, image_renderer: ImageRenderer) -> ViewerState {
        ViewerState {
            entries,
            current: 0,
            window_size: [1, 1],
            cursor_position: [0, 0],
            renderer: StableAspectRatioImageRenderer::wrapping(image_renderer).shown(
                entries[0].texture,
            ),
            elapsed: 0,
        }
    }

    /// The number of pictures.
    pub open spec fn len(self) -> int {
        self.entries.len() as int
    }

    /// The current picture.
    pub open spec fn current_entry(self) -> Entry {
        self.entries[self.current]
    }

    /// The state once the current picture has been offered to the
    /// renderer. A picture without area is not shown: what was shown stays.
    pub open spec fn rebound(self) -> ViewerState {
        ViewerState { renderer: self.renderer.shown(self.current_entry().texture), ..self }
    }

    /// The place before the current one, the last place counting as the
    /// one before the first.
    pub open spec fn left_of_current(self) -> int {
        (self.current + self.len() - 1) % self.len()
    }

    /// The place after the current one, the first place counting as the
    /// one after the last.
    pub open spec fn right_of_current(self) -> int {
        (self.current + 1) % self.len()
    }

    /// The state after a step to the picture on the left, which is then
    /// offered to the renderer.
    pub open spec fn cycled_left(self) -> ViewerState {
        (ViewerState { current: self.left_of_current(), ..self }).rebound()
    }

    /// The state after a step to the picture on the right, which is then
    /// offered to the renderer.
    pub open spec fn cycled_right(self) -> ViewerState {
        (ViewerState { current: self.right_of_current(), ..self }).rebound()
    }

    /// The state with the pictures at the places `a` and `b` exchanged.
    pub open spec fn swapped(self, a: int, b: int) -> ViewerState {
        ViewerState {
            entries: self.entries.update(a, self.entries[b]).update(b, self.entries[a]),
            ..self
        }
    }

    /// The state after the current picture has changed places with its
    /// left neighbour. It stays the current picture.
    pub open spec fn shifted_left(self) -> ViewerState {
        ViewerState {
            current: self.left_of_current(),
            ..self.swapped(self.current, self.left_of_current())
        }
    }

    /// The state after the current picture has changed places with its
    /// right neighbour. It stays the current picture.
    pub open spec fn shifted_right(self) -> ViewerState {
        ViewerState {
            current: self.right_of_current(),
            ..self.swapped(self.current, self.right_of_current())
        }
    }

    /// Whether the current picture can be taken off the list: it is not the
    /// only one.
    pub open spec fn can_drop(self) -> bool {
        self.len() > 1
    }

    /// The state after the current picture has been taken off the list.
    /// The picture that followed it becomes the current one, or the first
    /// picture where none followed, and is offered to the renderer. The
    /// only picture of a list is never taken off.
    pub open spec fn dropped(self) -> ViewerState {
        if self.can_drop() {
            (ViewerState {
                entries: self.entries.remove(self.current),
                current: if self.current == self.len() - 1 {
                    0
                } else {
                    self.current
                },
                ..self
            }).rebound()
        } else {
            self
        }
    }

    /// Whether, `elapsed` nanoseconds later, it is time to look at the
    /// current picture's file: a full interval has gone by since the last
    /// look.
    pub open spec fn poll_due(self, elapsed: u64) -> bool {
        self.elapsed + elapsed >= POLL_INTERVAL_NANOS
    }

    /// The state `elapsed` nanoseconds later. The time since the last look
    /// starts again from zero when a look is due, whatever went over the
    /// interval being dropped.
    pub open spec fn ticked(self, elapsed: u64) -> ViewerState {
        ViewerState {
            elapsed: if self.poll_due(elapsed) {
                0
            } else {
                (self.elapsed + elapsed) as nat
            },
            ..self
        }
    }

    /// Whether `probe`, what a look at the current picture's file gave,
    /// shows a change: the file could be looked at, and its signature is not
    /// the one on record.
    pub open spec fn sees_change(self, probe: Option<FileSignature>) -> bool {
        probe is Some && probe->Some_0 != self.current_entry().sig
    }

    /// The state after a look at the current picture's file. A signature
    /// that shows a change goes on record, before anything is read again.
    pub open spec fn probed(self, probe: Option<FileSignature>) -> ViewerState {
        if self.sees_change(probe) {
            ViewerState {
                entries: self.entries.update(
                    self.current,
                    Entry { sig: probe->Some_0, ..self.current_entry() },
                ),
                ..self
            }
        } else {
            self
        }
    }

    /// The current picture's texture once a picture of `size`, width
    /// first, has been uploaded to it again: the handle stays.
    pub open spec fn reuploaded(self, size: [u32; 2]) -> Texture {
        Texture::uploaded(self.current_entry().texture.texture_id, size[0], size[1])
    }

    /// Whether `reloaded`, what reading the current picture's file again
    /// gave, can be shown: the file was read, and the picture, whose size
    /// `reloaded` holds, has an area.
    pub open spec fn takes(self, reloaded: Option<[u32; 2]>) -> bool {
        reloaded is Some && self.reuploaded(reloaded->Some_0).has_area()
    }

    /// The state after the current picture's file has been read again and
    /// uploaded to the texture it was in. A picture that can be shown takes
    /// the current one's place and is shown; otherwise nothing changes.
    pub open spec fn reloaded(self, reloaded: Option<[u32; 2]>) -> ViewerState {
        if self.takes(reloaded) {
            ViewerState {
                entries: self.entries.update(
                    self.current,
                    Entry {
                        texture: self.reuploaded(reloaded->Some_0),
                        ..self.current_entry()
                    },
                ),
                renderer: self.renderer.shown(self.reuploaded(reloaded->Some_0)),
                ..self
            }
        } else {
            self
        }
    }

    /// The window's title: the current picture's path, the size of the
    /// picture that is shown, the current picture's place counted from one
    /// and the number of pictures, and the cursor's position.
    pub open spec fn title(self) -> Seq<char> {
        let size = self.renderer.image_renderer.texture_size;
        let cursor = self.cursor_position;
        self.current_entry().path + " | "@ + decimal(size[0] as int) + "x"@ + decimal(
            size[1] as int,
        ) + " | "@ + decimal(self.current + 1) + "/"@ + decimal(self.len()) + " | ("@ + decimal(
            cursor[0] as int,
        ) + ","@ + decimal(cursor[1] as int) + ")"@
    }

    /// Why the current picture is not the one that is shown, after it has
    /// been offered to the renderer.
    pub open spec fn unshown(self) -> Option<ViewerError> {
        self.current_entry().texture.refusal()
    }

    /// Why the current picture was not dropped, or why the one that took
    /// its place is not the one that is shown.
    pub open spec fn undropped(self) -> Option<ViewerError> {
        if self.can_drop() {
            self.dropped().unshown()
        } else {
            Some(ViewerError::SoleImage)
        }
    }

    /// The state after a key has gone down (`pressed`) or up, with or
    /// without the shift key held. Only a key that goes down does anything:
    /// the arrows step to a neighbour, or move the current picture there
    /// with shift held, and `X` drops the current picture.
    pub open spec fn after_key(self, key: Key, pressed: bool, shift: bool) -> ViewerState {
        if !pressed {
            self
        } else {
            match key {
                Key::Left => if shift {
                    self.shifted_left()
                } else {
                    self.cycled_left()
                },
                Key::Right => if shift {
                    self.shifted_right()
                } else {
                    self.cycled_right()
                },
                Key::X => self.dropped(),
                _ => self,
            }
        }
    }

    /// What is to be done after that key. Escape ends the viewer. Every
    /// step, move and drop changes the title; a step or a drop changes the
    /// picture too.
    pub open spec fn reaction_to(self, key: Key, pressed: bool, shift: bool) -> Reaction {
        if !pressed {
            Reaction { exit: false, retitle: false, redraw: false, refused: None }
        } else {
            match key {
                Key::Escape => Reaction { exit: true, retitle: false, redraw: false, refused: None },
                Key::Left => if shift {
                    Reaction { exit: false, retitle: true, redraw: false, refused: None }
                } else {
                    Reaction {
                        exit: false,
                        retitle: true,
                        redraw: true,
                        refused: self.cycled_left().unshown(),
                    }
                },
                Key::Right => if shift {
                    Reaction { exit: false, retitle: true, redraw: false, refused: None }
                } else {
                    Reaction {
                        exit: false,
                        retitle: true,
                        redraw: true,
                        refused: self.cycled_right().unshown(),
                    }
                },
                Key::X => Reaction {
                    exit: false,
                    retitle: true,
                    redraw: true,
                    refused: self.undropped(),
                },
                Key::Other => Reaction { exit: false, retitle: false, redraw: false, refused: None },
            }
        }
    }

    /// The state in a window of `size`.
    pub open spec fn resized(self, size: [i32; 2]) -> ViewerState {
        ViewerState { window_size: size, renderer: self.renderer.resized(size), ..self }
    }

    /// The state with the cursor at `position`.
    pub open spec fn pointed(self, position: [i32; 2]) -> ViewerState {
        ViewerState { cursor_position: position, ..self }
    }
}

/// The neighbours of a place in a list that is walked in a circle: the place
/// before the first is the last, and the place after the last is the first.
pub proof fn lemma_neighbours(state: ViewerState)
    requires
        0 <= state.current < state.len(),
    ensures
        state.left_of_current() == if state.current == 0 {
            state.len() - 1
        } else {
            state.current - 1
        },
        state.right_of_current() == if state.current == state.len() - 1 {
            0
        } else {
            state.current + 1
        },
        0 <= state.left_of_current() < state.len(),
        0 <= state.right_of_current() < state.len(),
{
    let i = state.current;
    let n = state.len();
    if i == 0 {
        lemma_fundamental_div_mod_converse_mod(i + n - 1, n, 0, n - 1);
    } else {
        lemma_fundamental_div_mod_converse_mod(i + n - 1, n, 1, i - 1);
    }
    if i == n - 1 {
        lemma_fundamental_div_mod_converse_mod(i + 1, n, 1, 0);
    } else {
        lemma_fundamental_div_mod_converse_mod(i + 1, n, 0, i + 1);
    }
}

/// Every step keeps the state in order: there is still a current picture,
/// and the quad is still fitted to what is shown.
pub proof fn lemma_steps_keep_order(state: ViewerState)
    requires
        state.wf(),
    ensures
        state.rebound().wf(),
        state.cycled_left().wf(),
        state.cycled_right().wf(),
        state.shifted_left().wf(),
        state.shifted_right().wf(),
        state.dropped().wf(),
        forall|probe: Option<FileSignature>| #[trigger] state.probed(probe).wf(),
        forall|reloaded: Option<[u32; 2]>| #[trigger] state.reloaded(reloaded).wf(),
        forall|size: [i32; 2]| size[0] > 0 && size[1] > 0 ==> #[trigger] state.resized(size).wf(),
        forall|position: [i32; 2]| #[trigger] state.pointed(position).wf(),
        forall|elapsed: u64| #[trigger] state.ticked(elapsed).wf(),
        forall|key: Key, pressed: bool, shift: bool| #[trigger]
            state.after_key(key, pressed, shift).wf(),
{
    lemma_neighbours(state);
}

/// A step to the left and a step to the right undo each other's move: the
/// same picture is the current one again.
pub proof fn lemma_cycle_there_and_back(state: ViewerState)
    requires
        state.wf(),
    ensures
        state.cycled_left().cycled_right().current == state.current,
        state.cycled_right().cycled_left().current == state.current,
        state.cycled_left().cycled_right().entries == state.entries,
        state.cycled_right().cycled_left().entries == state.entries,
{
    lemma_neighbours(state);
    lemma_neighbours(state.cycled_left());
    lemma_neighbours(state.cycled_right());
}

/// A step changes nothing but the current place and what is shown, and what
/// is shown afterwards is the new current picture, if it has an area.
pub proof fn lemma_cycle_shows_neighbour(state: ViewerState)
    requires
        state.wf(),
    ensures
        state.cycled_left().entries == state.entries,
        state.cycled_right().entries == state.entries,
        ({
            let left = state.cycled_left();
            let right = state.cycled_right();
            &&& left.unshown() is None ==> left.renderer.image_renderer.texture
                == left.current_entry().texture.texture_id
                && left.renderer.image_renderer.texture_size == left.current_entry().texture.size
            &&& right.unshown() is None ==> right.renderer.image_renderer.texture
                == right.current_entry().texture.texture_id
                && right.renderer.image_renderer.texture_size == right.current_entry().texture.size
            &&& left.unshown() is Some ==> left.renderer == state.renderer
            &&& right.unshown() is Some ==> right.renderer == state.renderer
        }),
{
}

/// A move takes the current picture along: it is still the current one,
/// what is shown stays, its neighbour has taken its old place, and every
/// other picture is where it was.
pub proof fn lemma_shift_takes_picture_along(state: ViewerState)
    requires
        state.wf(),
    ensures
        state.shifted_right().current_entry() == state.current_entry(),
        state.shifted_left().current_entry() == state.current_entry(),
        state.shifted_right().entries[state.current] == state.entries[state.right_of_current()],
        state.shifted_left().entries[state.current] == state.entries[state.left_of_current()],
        state.shifted_right().renderer == state.renderer,
        state.shifted_left().renderer == state.renderer,
        state.shifted_right().len() == state.len(),
        state.shifted_left().len() == state.len(),
        forall|i: int|
            0 <= i < state.len() && i != state.current && i != state.right_of_current()
                ==> #[trigger] state.shifted_right().entries[i] == state.entries[i],
        forall|i: int|
            0 <= i < state.len() && i != state.current && i != state.left_of_current()
                ==> #[trigger] state.shifted_left().entries[i] == state.entries[i],
{
    lemma_neighbours(state);
}

/// A move to the right and a move to the left undo each other.
pub proof fn lemma_shift_there_and_back(state: ViewerState)
    requires
        state.wf(),
    ensures
        state.shifted_right().shifted_left() == state,
        state.shifted_left().shifted_right() == state,
{
    lemma_neighbours(state);
    lemma_neighbours(state.shifted_right());
    lemma_neighbours(state.shifted_left());
    assert(state.shifted_right().shifted_left().entries =~= state.entries);
    assert(state.shifted_left().shifted_right().entries =~= state.entries);
}

/// A drop takes exactly the current picture off a list of several, keeps
/// the others in their order, and leaves a picture to be the current one:
/// the one that followed, or the first. The only picture of a list stays.
pub proof fn lemma_drop_leaves_a_picture(state: ViewerState)
    requires
        state.wf(),
    ensures
        state.dropped().len() >= 1,
        0 <= state.dropped().current < state.dropped().len(),
        state.can_drop() ==> state.dropped().entries == state.entries.remove(state.current),
        state.can_drop() ==> state.dropped().len() == state.len() - 1,
        state.can_drop() && state.current < state.len() - 1 ==> state.dropped().current
            == state.current && state.dropped().current_entry() == state.entries[state.current
            + 1],
        state.can_drop() && state.current == state.len() - 1 ==> state.dropped().current == 0
            && state.dropped().current_entry() == state.entries[0],
        !state.can_drop() ==> state.dropped() == state,
{
}

/// A file that changed and then could not be read is not read again until
/// it changes once more: the new signature is on record, the picture and
/// what is shown are as before, and the same signature shows no change.
pub proof fn lemma_failed_reload_is_not_repeated(state: ViewerState, sig: FileSignature)
    requires
        state.wf(),
        state.sees_change(Some(sig)),
    ensures
        ({
            let after = state.probed(Some(sig)).reloaded(None);
            &&& after.current_entry().sig == sig
            &&& after.current_entry().texture == state.current_entry().texture
            &&& after.current_entry().path == state.current_entry().path
            &&& after.renderer == state.renderer
            &&& after.current == state.current
            &&& after.len() == state.len()
            &&& forall|i: int|
                0 <= i < state.len() && i != state.current ==> #[trigger] after.entries[i]
                    == state.entries[i]
            &&& !after.sees_change(Some(sig))
            &&& after.probed(Some(sig)) == after
        }),
{
}

/// A picture that is read again stays in the texture it was in, keeps its
/// path and the signature on record, and is what is shown from then on.
pub proof fn lemma_reload_keeps_the_handle(state: ViewerState, size: [u32; 2])
    requires
        state.wf(),
        state.takes(Some(size)),
    ensures
        ({
            let after = state.reloaded(Some(size));
            &&& after.current_entry().texture.texture_id == state.current_entry().texture.texture_id
            &&& after.current_entry().path == state.current_entry().path
            &&& after.current_entry().sig == state.current_entry().sig
            &&& after.current_entry().texture.size[0] == size[0]
            &&& after.current_entry().texture.size[1] == size[1]
            &&& after.renderer.image_renderer.texture == after.current_entry().texture.texture_id
            &&& after.renderer.image_renderer.texture_size == after.current_entry().texture.size
            &&& after.renderer.image_renderer.texture_loaded
            &&& after.current == state.current
            &&& after.len() == state.len()
        }),
{
}

/// Whatever is shown is shown at a scale of at most one on each axis and
/// exactly one on one of them, and has the picture's proportions.
pub proof fn lemma_shown_picture_fills_one_axis(state: ViewerState)
    requires
        state.wf(),
        state.renderer.image_renderer.texture_loaded,
    ensures
        ({
            let s = state.renderer.image_renderer.scale;
            let w = state.window_size[0] as int;
            let h = state.window_size[1] as int;
            let iw = state.renderer.image_renderer.texture_size[0] as int;
            let ih = state.renderer.image_renderer.texture_size[1] as int;
            &&& s.x.positive() && s.x.num <= s.x.den
            &&& s.y.positive() && s.y.num <= s.y.den
            &&& s.x.is_one() || s.y.is_one()
            &&& (w * ih) * (s.x.num * s.y.den) == (iw * h) * (s.y.num * s.x.den)
        }),
{
    let r = state.renderer;
    lemma_fit_within_unit(
        r.window_size[0],
        r.window_size[1],
        r.image_renderer.texture_size[0],
        r.image_renderer.texture_size[1],
    );
    lemma_fit_preserves_aspect(
        r.scale,
        r.window_size[0],
        r.window_size[1],
        r.image_renderer.texture_size[0],
        r.image_renderer.texture_size[1],
    );
}

/// A look at the file that shows no change, or that cannot be made, leaves
/// the state as it is.
pub proof fn lemma_unchanged_file_changes_nothing(state: ViewerState, probe: Option<FileSignature>)
    requires
        state.wf(),
        probe is None || probe == Some(state.current_entry().sig),
    ensures
        !state.sees_change(probe),
        state.probed(probe) == state,
{
}

/// The file is looked at as soon as a full interval has been counted, and
/// no sooner; the counting then starts again from zero, so that the time
/// counted never reaches the interval.
pub proof fn lemma_poll_once_per_interval(state: ViewerState, elapsed: u64)
    requires
        state.wf(),
    ensures
        state.poll_due(elapsed) ==> state.ticked(elapsed).elapsed == 0,
        !state.poll_due(elapsed) ==> state.ticked(elapsed).elapsed == state.elapsed + elapsed,
        state.ticked(elapsed).elapsed < POLL_INTERVAL_NANOS,
        elapsed >= POLL_INTERVAL_NANOS ==> state.poll_due(elapsed),
        state.elapsed + elapsed < POLL_INTERVAL_NANOS ==> !state.poll_due(elapsed),
{
}

} // verus!
