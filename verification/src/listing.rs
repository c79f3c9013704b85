//! Which files are shown. Of a directory, the files whose extension is one
//! of `png`, `jpg`, `bmp`, `gif` and `jpeg`, spelled in lower case; a file
//! that is named by itself, whatever its extension.

use vstd::prelude::*;

verus! {

/// A file found in a directory: its path, and the extension of its name
/// where it has one that is text.
#[derive(Debug, PartialEq, Eq)]
pub struct DirectoryEntry {
    pub path: String,
    pub extension: Option<String>,
}

/// A `DirectoryEntry` as a value.
pub struct Listed {
    pub path: Seq<char>,
    pub extension: Option<Seq<char>>,
}

impl View for DirectoryEntry {
    type V = Listed;

    open spec fn view(&self) -> Listed {
        Listed {
            path: self.path@,
            extension: match self.extension {
                Some(extension) => Some(extension@),
                None => None,
            },
        }
    }
}

/// The value of each file of a listing.
pub open spec fn listed(listing: Seq<DirectoryEntry>) -> Seq<Listed> {
    listing.map_values(|entry: DirectoryEntry| entry@)
}

/// The characters of each path.
pub open spec fn paths_of(paths: Seq<String>) -> Seq<Seq<char>> {
    paths.map_values(|path: String| path@)
}

/// `extension` is that of a picture. Upper case does not count.
pub open spec fn is_image_extension(extension: Seq<char>) -> bool {
    extension == "png"@ || extension == "jpg"@ || extension == "bmp"@ || extension == "gif"@
        || extension == "jpeg"@
}

/// The file is a picture by its extension.
pub open spec fn is_image(entry: Listed) -> bool {
    entry.extension is Some && is_image_extension(entry.extension->Some_0)
}

/// The paths of the pictures of a listing, in the listing's order.
pub open spec fn images_in(listing: Seq<Listed>) -> Seq<Seq<char>> {
    listing.filter(|entry: Listed| is_image(entry)).map_values(|entry: Listed| entry.path)
}

/// Whether `extension` is that of a picture.
pub fn has_image_extension(extension: &str) -> (b: bool)
    ensures
        b == is_image_extension(extension@),
{
    let extension = extension.to_owned();
    extension == "png".to_owned() || extension == "jpg".to_owned() || extension == "bmp".to_owned()
        || extension == "gif".to_owned() || extension == "jpeg".to_owned()
}

/// The paths of the pictures among the files of a directory, in the order
/// in which the directory lists them.
pub fn all_images_in_directory(listing: &Vec<DirectoryEntry>) -> (paths: Vec<String>)
    ensures
        paths_of(paths@) == images_in(listed(listing@)),
{
    let mut paths: Vec<String> = Vec::new();
    let mut i: usize = 0;
    while i < listing.len()
        invariant
            i <= listing.len(),
            paths_of(paths@) == images_in(listed(listing@).take(i as int)),
        decreases listing.len() - i,
    {
        let entry = &listing[i];
        let ghost before = listed(listing@).take(i as int);
        let ghost after = listed(listing@).take(i as int + 1);
        proof {
            assert(after =~= before.push(entry@));
            before.lemma_filter_push(entry@, |entry: Listed| is_image(entry));
            assert(images_in(after) =~= if is_image(entry@) {
                images_in(before).push(entry.path@)
            } else {
                images_in(before)
            });
        }
        let wanted = match &entry.extension {
            Some(extension) => has_image_extension(extension.as_str()),
            None => false,
        };
        if wanted {
            let ghost shorter = paths_of(paths@);
            paths.push(entry.path.clone());
            proof {
                assert(paths_of(paths@) =~= shorter.push(entry.path@));
            }
        }
        i = i + 1;
    }
    proof {
        assert(listed(listing@).take(i as int) =~= listed(listing@));
    }
    paths
}

/// What was named to the viewer: a file, or a directory with the files
/// that were found in it.
#[derive(Debug, PartialEq, Eq)]
pub enum PathArgument {
    File(String),
    Directory(Vec<DirectoryEntry>),
}

/// A `PathArgument` as a value.
pub enum Named {
    File(Seq<char>),
    Directory(Seq<Listed>),
}

impl View for PathArgument {
    type V = Named;

    open spec fn view(&self) -> Named {
        match self {
            PathArgument::File(path) => Named::File(path@),
            PathArgument::Directory(listing) => Named::Directory(listed(listing@)),
        }
    }
}

/// The value of each thing that was named.
pub open spec fn named(arguments: Seq<PathArgument>) -> Seq<Named> {
    arguments.map_values(|argument: PathArgument| argument@)
}

/// The paths that one named thing stands for: a file stands for itself,
/// a directory for the pictures in it.
pub open spec fn images_of(argument: Named) -> Seq<Seq<char>> {
    match argument {
        Named::File(path) => seq![path],
        Named::Directory(listing) => images_in(listing),
    }
}

/// The paths that the named things stand for, one after the other.
pub open spec fn images_named(arguments: Seq<Named>) -> Seq<Seq<char>>
    decreases arguments.len(),
{
    if arguments.len() == 0 {
        Seq::empty()
    } else {
        images_named(arguments.drop_last()) + images_of(arguments.last())
    }
}

/// The paths of the pictures to show for what was named, in the order of
/// the naming: each file as it is, each directory as the pictures in it.
pub fn images_from_arguments(arguments: &Vec<PathArgument>) -> (paths: Vec<String>)
    ensures
        paths_of(paths@) == images_named(named(arguments@)),
{
    let mut paths: Vec<String> = Vec::new();
    let mut i: usize = 0;
    while i < arguments.len()
        invariant
            i <= arguments.len(),
            paths_of(paths@) == images_named(named(arguments@).take(i as int)),
        decreases arguments.len() - i,
    {
        let ghost before = named(arguments@).take(i as int);
        let ghost after = named(arguments@).take(i as int + 1);
        let ghost shorter = paths_of(paths@);
        proof {
            assert(after.drop_last() =~= before);
            assert(after.last() == arguments@[i as int]@);
        }
        match &arguments[i] {
            PathArgument::File(path) => {
                paths.push(path.clone());
                proof {
                    assert(paths_of(paths@) =~= shorter + seq![path@]);
                }
            },
            PathArgument::Directory(listing) => {
                let mut found = all_images_in_directory(listing);
                let ghost more = paths_of(found@);
                paths.append(&mut found);
                proof {
                    assert(paths_of(paths@) =~= shorter + more);
                }
            },
        }
        i = i + 1;
    }
    proof {
        assert(named(arguments@).take(i as int) =~= named(arguments@));
    }
    paths
}

/// A path is among the pictures of a listing exactly when the listing
/// holds a file of that path with a picture's extension, and no more paths
/// come out than files went in.
pub proof fn lemma_images_are_the_listed_pictures(listing: Seq<Listed>)
    ensures
        images_in(listing).len() <= listing.len(),
        forall|path: Seq<char>|
            images_in(listing).contains(path) <==> exists|i: int|
                0 <= i < listing.len() && is_image(#[trigger] listing[i]) && listing[i].path
                    == path,
{
    let pred = |entry: Listed| is_image(entry);
    let pictures = listing.filter(pred);
    listing.lemma_filter_len(pred);
    assert forall|path: Seq<char>|
        images_in(listing).contains(path) <==> exists|i: int|
            0 <= i < listing.len() && is_image(#[trigger] listing[i]) && listing[i].path
                == path by {
        if images_in(listing).contains(path) {
            let k = choose|k: int|
                0 <= k < images_in(listing).len() && images_in(listing)[k] == path;
            listing.lemma_filter_pred(pred, k);
            assert(pictures.contains(pictures[k]));
            listing.lemma_filter_contains_rev(pred, pictures[k]);
            let i = choose|i: int| 0 <= i < listing.len() && listing[i] == pictures[k];
            assert(is_image(listing[i]) && listing[i].path == path);
        }
        if exists|i: int|
            0 <= i < listing.len() && is_image(#[trigger] listing[i]) && listing[i].path == path {
            let i = choose|i: int|
                0 <= i < listing.len() && is_image(#[trigger] listing[i]) && listing[i].path
                    == path;
            listing.lemma_filter_contains(pred, i);
            let k = choose|k: int| 0 <= k < pictures.len() && pictures[k] == listing[i];
            assert(images_in(listing)[k] == path);
        }
    }
}

} // verus!
