//! Where the payload module lies on disk.
//!
//! The injector finds the payload by walking from its own executable: a few
//! directories up, then down into the build's output directory. The walk is
//! tied to the way the two artefacts are built, so it is kept in one value
//! that a caller may replace, instead of being buried in the code that opens
//! the file.
//!
//! A path is handled as the list of its names below the root, outermost
//! first. Going up from an empty list stays at the root. What a name is made
//! of does not matter to the walk, so the caller picks the type: `String`, or
//! whatever the platform uses for file names.

use vstd::prelude::*;

verus! {

/// The mathematical content of a layout.
pub struct LayoutView<T> {
    /// How many names are taken off the end of the executable's path.
    pub levels_up: nat,
    /// The directory that holds the build's output.
    pub subdir: T,
    /// The payload's file name.
    pub file_name: T,
}

/// How many names of a path of `len` names are left after going up
/// `levels_up` times.
pub open spec fn kept(len: nat, levels_up: nat) -> nat {
    if len >= levels_up {
        (len - levels_up) as nat
    } else {
        0
    }
}

/// The payload's path for an executable at `exe`.
pub open spec fn located<T>(layout: LayoutView<T>, exe: Seq<T>) -> Seq<T> {
    exe.take(kept(exe.len(), layout.levels_up) as int).push(layout.subdir).push(layout.file_name)
}

/// The walk from the injector's executable to the payload.
#[derive(Debug)]
pub struct PayloadLayout<T> {
    levels_up: usize,
    subdir: T,
    file_name: T,
}

impl<T> View for PayloadLayout<T> {
    type V = LayoutView<T>;

    closed spec fn view(&self) -> LayoutView<T> {
        LayoutView {
            levels_up: self.levels_up as nat,
            subdir: self.subdir,
            file_name: self.file_name,
        }
    }
}

impl<T> PayloadLayout<T> {
    /// A layout of the caller's choosing.
    pub fn new(levels_up: usize, subdir: T, file_name: T) -> (layout: PayloadLayout<T>)
        ensures
            layout@ == (LayoutView { levels_up: levels_up as nat, subdir, file_name }),
    {
        PayloadLayout { levels_up, subdir, file_name }
    }

    /// How many names are taken off the end of the executable's path.
    pub fn levels_up(&self) -> (levels: usize)
        ensures
            levels == self@.levels_up,
    {
        self.levels_up
    }

    /// The directory that holds the build's output.
    pub fn subdir(&self) -> (subdir: &T)
        ensures
            *subdir == self@.subdir,
    {
        &self.subdir
    }

    /// The payload's file name.
    pub fn file_name(&self) -> (file_name: &T)
        ensures
            *file_name == self@.file_name,
    {
        &self.file_name
    }

    /// Derives the payload's path from the path of the injector's executable.
    /// `exe` holds the names of that path below its root, the executable's own
    /// file name last; the result is to be read below the same root.
    pub fn locate(self, exe: Vec<T>) -> (payload: Vec<T>)
        ensures
            payload@ == located(self@, exe@),
    {
        let mut payload = exe;
        let len: usize = payload.len();
        let keep: usize = if len >= self.levels_up {
            len - self.levels_up
        } else {
            0
        };
        payload.truncate(keep);
        payload.push(self.subdir);
        payload.push(self.file_name);
        payload
    }
}

impl PayloadLayout<String> {
    /// The layout used when the caller configures none, that of a cargo build:
    /// from `target/<dir>/injector` two names up, then into `release`, where
    /// the hook library is written.
    pub fn standard() -> (layout: PayloadLayout<String>)
        ensures
            layout@.levels_up == 2,
            layout@.subdir@ == "release"@,
            layout@.file_name@ == "d3d9_hook_imgui_rs.dll"@,
    {
        PayloadLayout {
            levels_up: 2,
            subdir: "release".to_owned(),
            file_name: "d3d9_hook_imgui_rs.dll".to_owned(),
        }
    }
}

} // verus!
