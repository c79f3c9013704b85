//! The viewer: the list of pictures, which of them is the current one, the
//! window, and the renderer. Reading files, decoding pictures and drawing
//! are done between the calls by whoever owns the window.

use crate::decimal::{append_decimal, decimal};
use crate::error::ViewerError;
use crate::image_renderer::ImageRenderer;
use crate::signature::FileSignature;
use crate::stable_renderer::StableAspectRatioImageRenderer;
use crate::state::{lemma_neighbours, Entry, Key, Reaction, ViewerState, POLL_INTERVAL_NANOS};
use crate::texture::Texture;
use vstd::prelude::*;
use vstd::string::StringExecFns;

verus! {

/// One picture of the list: where it was read from, what was known of the
/// file then, and the texture it was uploaded to.
#[derive(Debug)]
pub struct TextureFile {
    pub texture: Texture,
    pub path: String,
    pub sig: FileSignature,
}

impl View for TextureFile {
    type V = Entry;

    open spec fn view(&self) -> Entry {
        Entry { texture: self.texture, path: self.path@, sig: self.sig }
    }
}

/// The value of each picture of a list.
pub open spec fn entries_of(files: Seq<TextureFile>) -> Seq<Entry> {
    files.map_values(|f: TextureFile| f@)
}

/// The viewer.
#[derive(Debug)]
pub struct AppData {
    image_paths: Vec<TextureFile>,
    current_image_index: usize,
    window_size: [i32; 2],
    cursor_position: [i32; 2],
    renderer: StableAspectRatioImageRenderer,
    elapsed_nanos: u64,
}

impl View for AppData {
    type V = ViewerState;

    closed spec fn view(&self) -> ViewerState {
        ViewerState {
            entries: entries_of(self.image_paths@),
            current: self.current_image_index as int,
            window_size: self.window_size,
            cursor_position: self.cursor_position,
            renderer: self.renderer,
            elapsed: self.elapsed_nanos as nat,
        }
    }
}

impl AppData {
    /// A viewer for the pictures of `image_paths`, in their order, drawn by
    /// `image_renderer`. It starts on the first picture. A list without
    /// pictures is refused, and so is one whose first picture cannot be
    /// shown.
    pub fn new(
        image_paths: Vec<TextureFile>,
        image_renderer: ImageRenderer,
    ) -> (r: Result<AppData, ViewerError>)
        requires
            image_renderer.wf(),
        ensures
            r.err() == ViewerState::unstarted(entries_of(image_paths@)),
            r is Ok ==> r->Ok_0@ == ViewerState::initial(entries_of(image_paths@), image_renderer),
            r is Ok ==> r->Ok_0@.wf(),
    {
        if image_paths.len() == 0 {
            return Err(ViewerError::NoImages);
        }
        let renderer = StableAspectRatioImageRenderer::new(image_renderer);
        let mut app_data = AppData {
            image_paths,
            current_image_index: 0,
            window_size: [1, 1],
            cursor_position: [0, 0],
            renderer,
            elapsed_nanos: 0,
        };
        match app_data.reload_texture() {
            Ok(()) => Ok(app_data),
            Err(e) => Err(e),
        }
    }

    /// Offers the current picture to the renderer. A picture without area
    /// is refused, and what was shown stays.
    pub fn reload_texture(&mut self) -> (r: Result<(), ViewerError>)
        requires
            old(self)@.wf(),
        ensures
            final(self)@ == old(self)@.rebound(),
            r.err() == old(self)@.unshown(),
            final(self)@.wf(),
    {
        let texture = &self.image_paths[self.current_image_index].texture;
        self.renderer.set_texture_data(texture)
    }

    /// Steps to the picture on the left, from the first one to the last,
    /// and offers it to the renderer. The step is made even if the picture
    /// cannot be shown.
    pub fn cycle_left(&mut self) -> (r: Result<(), ViewerError>)
        requires
            old(self)@.wf(),
        ensures
            final(self)@ == old(self)@.cycled_left(),
            final(self)@.wf(),
            r.err() == final(self)@.unshown(),
    {
        proof {
            lemma_neighbours(self@);
        }
        if self.current_image_index == 0 {
            self.current_image_index = self.image_paths.len() - 1;
        } else {
            self.current_image_index = self.current_image_index - 1;
        }
        self.reload_texture()
    }

    /// Steps to the picture on the right, from the last one to the first,
    /// and offers it to the renderer. The step is made even if the picture
    /// cannot be shown.
    pub fn cycle_right(&mut self) -> (r: Result<(), ViewerError>)
        requires
            old(self)@.wf(),
        ensures
            final(self)@ == old(self)@.cycled_right(),
            final(self)@.wf(),
            r.err() == final(self)@.unshown(),
    {
        proof {
            lemma_neighbours(self@);
        }
        if self.current_image_index == self.image_paths.len() - 1 {
            self.current_image_index = 0;
        } else {
            self.current_image_index = self.current_image_index + 1;
        }
        self.reload_texture()
    }

    /// Exchanges the pictures at the places `a` and `b`.
    pub fn swap_image_positions(&mut self, a: usize, b: usize)
        requires
            a < old(self)@.len(),
            b < old(self)@.len(),
        ensures
            final(self)@ == old(self)@.swapped(a as int, b as int),
            old(self)@.wf() ==> final(self)@.wf(),
    {
        if a != b {
            let low: usize = if a < b {
                a
            } else {
                b
            };
            let high: usize = if a < b {
                b
            } else {
                a
            };
            let upper = self.image_paths.remove(high);
            let lower = self.image_paths.remove(low);
            self.image_paths.insert(low, upper);
            self.image_paths.insert(high, lower);
        }
        proof {
            let before = entries_of(old(self).image_paths@);
            assert(entries_of(self.image_paths@) =~= before.update(a as int, before[b as int]).update(
                b as int,
                before[a as int],
            ));
        }
    }

    /// Moves the current picture one place to the right, the last picture
    /// to the first place. It stays the current picture, and what is shown
    /// stays.
    pub fn shift_right(&mut self)
        requires
            old(self)@.wf(),
        ensures
            final(self)@ == old(self)@.shifted_right(),
            final(self)@.wf(),
    {
        proof {
            lemma_neighbours(self@);
        }
        let this_index = self.current_image_index;
        let other_index = if this_index == self.image_paths.len() - 1 {
            0
        } else {
            this_index + 1
        };
        self.swap_image_positions(this_index, other_index);
        self.current_image_index = other_index;
    }

    /// Moves the current picture one place to the left, the first picture
    /// to the last place. It stays the current picture, and what is shown
    /// stays.
    pub fn shift_left(&mut self)
        requires
            old(self)@.wf(),
        ensures
            final(self)@ == old(self)@.shifted_left(),
            final(self)@.wf(),
    {
        proof {
            lemma_neighbours(self@);
        }
        let this_index = self.current_image_index;
        let other_index = if this_index == 0 {
            self.image_paths.len() - 1
        } else {
            this_index - 1
        };
        self.swap_image_positions(this_index, other_index);
        self.current_image_index = other_index;
    }

    /// Takes the current picture off the list. The picture that followed it
    /// becomes the current one, or the first picture where none followed,
    /// and is offered to the renderer. The only picture of a list is not
    /// taken off.
    pub fn drop_current(&mut self) -> (r: Result<(), ViewerError>)
        requires
            old(self)@.wf(),
        ensures
            final(self)@ == old(self)@.dropped(),
            final(self)@.wf(),
            r.err() == old(self)@.undropped(),
    {
        if self.image_paths.len() <= 1 {
            return Err(ViewerError::SoleImage);
        }
        let _ = self.image_paths.remove(self.current_image_index);
        if self.current_image_index == self.image_paths.len() {
            self.current_image_index = 0;
        }
        proof {
            let before = entries_of(old(self).image_paths@);
            assert(entries_of(self.image_paths@) =~= before.remove(old(self)@.current));
        }
        self.reload_texture()
    }

    /// Takes note of the window's new size, which must have an area.
    pub fn resize_window(&mut self, size: [i32; 2])
        requires
            old(self)@.wf(),
            size[0] > 0,
            size[1] > 0,
        ensures
            final(self)@ == old(self)@.resized(size),
            final(self)@.wf(),
    {
        self.window_size = size;
        self.renderer.resize_window(size);
    }

    /// Lets `elapsed_nanos` nanoseconds go by, and says whether it is time
    /// to look at the current picture's file.
    pub fn update(&mut self, elapsed_nanos: u64) -> (due: bool)
        ensures
            final(self)@ == old(self)@.ticked(elapsed_nanos),
            due == old(self)@.poll_due(elapsed_nanos),
            old(self)@.wf() ==> final(self)@.wf(),
    {
        let due = match self.elapsed_nanos.checked_add(elapsed_nanos) {
            Some(total) => total >= POLL_INTERVAL_NANOS,
            None => true,
        };
        if due {
            self.elapsed_nanos = 0;
        } else {
            self.elapsed_nanos = self.elapsed_nanos + elapsed_nanos;
        }
        due
    }

    /// Takes note of `probe`, what a look at the current picture's file
    /// gave (`None` where the file could not be looked at), and says whether
    /// the file is to be read again. A signature that differs from the one
    /// on record goes on record at once, so that a file that cannot be read
    /// is not tried again until it changes once more.
    pub fn file_probed(&mut self, probe: Option<FileSignature>) -> (changed: bool)
        requires
            old(self)@.wf(),
        ensures
            final(self)@ == old(self)@.probed(probe),
            changed == old(self)@.sees_change(probe),
            final(self)@.wf(),
    {
        match probe {
            Some(sig) => {
                if self.image_paths[self.current_image_index].sig.changed(&sig) {
                    self.image_paths[self.current_image_index].sig = sig;
                    proof {
                        let before = entries_of(old(self).image_paths@);
                        let changed = Entry { sig, ..old(self)@.current_entry() };
                        assert(entries_of(self.image_paths@) =~= before.update(
                            old(self)@.current,
                            changed,
                        ));
                    }
                    true
                } else {
                    false
                }
            },
            None => false,
        }
    }

    /// Takes note of `reloaded`, what reading the current picture's file
    /// again and uploading it to the same texture gave: the picture's size,
    /// width first, or `None` where that failed. Says whether the window is
    /// to be drawn again. A picture that can be shown takes the current
    /// one's place; otherwise the picture that was shown stays.
    pub fn texture_reloaded(&mut self, reloaded: Option<[u32; 2]>) -> (redraw: bool)
        requires
            old(self)@.wf(),
        ensures
            final(self)@ == old(self)@.reloaded(reloaded),
            redraw == old(self)@.takes(reloaded),
            final(self)@.wf(),
    {
        match reloaded {
            Some(size) => {
                let texture_id = self.image_paths[self.current_image_index].texture.texture_id;
                let texture = Texture::from_file(texture_id, size[0], size[1]);
                if texture.has_area() {
                    self.image_paths[self.current_image_index].texture = texture;
                    proof {
                        let before = entries_of(old(self).image_paths@);
                        let changed = Entry { texture, ..old(self)@.current_entry() };
                        assert(entries_of(self.image_paths@) =~= before.update(
                            old(self)@.current,
                            changed,
                        ));
                    }
                    let shown = self.renderer.set_texture_data(&texture);
                    shown.is_ok()
                } else {
                    false
                }
            },
            None => false,
        }
    }

    /// The path of the current picture.
    pub fn current_image_path(&self) -> (path: &String)
        requires
            self@.wf(),
        ensures
            path@ == self@.current_entry().path,
    {
        &self.image_paths[self.current_image_index].path
    }

    /// The window's title.
    pub fn new_window_title(&self) -> (title: String)
        requires
            self@.wf(),
        ensures
            title@ == self@.title(),
    {
        let size = self.renderer.get_image_size();
        let mut title = self.current_image_path().clone();
        let ghost path = title@;
        title.append(" | ");
        append_decimal(&mut title, size[0] as i128);
        title.append("x");
        append_decimal(&mut title, size[1] as i128);
        title.append(" | ");
        let ghost sized = path + " | "@ + decimal(size[0] as int) + "x"@ + decimal(size[1] as int);
        assert(title@ =~= sized + " | "@);
        append_decimal(&mut title, self.current_image_index as i128 + 1);
        title.append("/");
        append_decimal(&mut title, self.image_paths.len() as i128);
        title.append(" | (");
        let ghost placed = sized + " | "@ + decimal(self.current_image_index + 1) + "/"@ + decimal(
            self.image_paths.len() as int,
        );
        assert(title@ =~= placed + " | ("@);
        append_decimal(&mut title, self.cursor_position[0] as i128);
        title.append(",");
        append_decimal(&mut title, self.cursor_position[1] as i128);
        title.append(")");
        assert(title@ =~= self@.title());
        title
    }

    /// The pictures, in their order.
    pub fn image_paths(&self) -> (files: &Vec<TextureFile>)
        ensures
            entries_of(files@) == self@.entries,
    {
        &self.image_paths
    }

    /// The number of pictures.
    pub fn image_count(&self) -> (n: usize)
        ensures
            n == self@.len(),
    {
        self.image_paths.len()
    }

    /// The place of the current picture, counted from zero.
    pub fn current_image_index(&self) -> (i: usize)
        ensures
            i == self@.current,
    {
        self.current_image_index
    }

    /// The texture of the current picture.
    pub fn current_texture(&self) -> (texture: Texture)
        requires
            self@.wf(),
        ensures
            texture == self@.current_entry().texture,
    {
        self.image_paths[self.current_image_index].texture
    }

    /// The signature on record for the current picture's file.
    pub fn current_signature(&self) -> (sig: FileSignature)
        requires
            self@.wf(),
        ensures
            sig == self@.current_entry().sig,
    {
        self.image_paths[self.current_image_index].sig
    }

    /// The window's size, width first.
    pub fn window_size(&self) -> (size: [i32; 2])
        ensures
            size == self@.window_size,
    {
        self.window_size
    }

    /// The cursor's position.
    pub fn cursor_position(&self) -> (position: [i32; 2])
        ensures
            position == self@.cursor_position,
    {
        self.cursor_position
    }

    /// The renderer: what is shown, and at which scale.
    pub fn renderer(&self) -> (renderer: StableAspectRatioImageRenderer)
        ensures
            renderer == self@.renderer,
    {
        self.renderer
    }

    /// Takes note of a key that has gone down (`pressed`) or up, with or
    /// without the shift key held, and says what is to be done after it.
    pub fn keyboard_input(&mut self, key: Key, pressed: bool, shift: bool) -> (reaction: Reaction)
        requires
            old(self)@.wf(),
        ensures
            final(self)@ == old(self)@.after_key(key, pressed, shift),
            reaction == old(self)@.reaction_to(key, pressed, shift),
            final(self)@.wf(),
    {
        if !pressed {
            return Reaction { exit: false, retitle: false, redraw: false, refused: None };
        }
        match key {
            Key::Escape => Reaction { exit: true, retitle: false, redraw: false, refused: None },
            Key::Left => {
                if shift {
                    self.shift_left();
                    Reaction { exit: false, retitle: true, redraw: false, refused: None }
                } else {
                    let shown = self.cycle_left();
                    Reaction { exit: false, retitle: true, redraw: true, refused: shown.err() }
                }
            },
            Key::Right => {
                if shift {
                    self.shift_right();
                    Reaction { exit: false, retitle: true, redraw: false, refused: None }
                } else {
                    let shown = self.cycle_right();
                    Reaction { exit: false, retitle: true, redraw: true, refused: shown.err() }
                }
            },
            Key::X => {
                let dropped = self.drop_current();
                Reaction { exit: false, retitle: true, redraw: true, refused: dropped.err() }
            },
            Key::Other => Reaction { exit: false, retitle: false, redraw: false, refused: None },
        }
    }

    /// Takes note of the cursor's new position.
    pub fn set_cursor_position(&mut self, position: [i32; 2])
        ensures
            final(self)@ == old(self)@.pointed(position),
            old(self)@.wf() ==> final(self)@.wf(),
    {
        self.cursor_position = position;
    }
}

} // verus!
