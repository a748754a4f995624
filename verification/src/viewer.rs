//! The text of a file, to be shown.

use vstd::prelude::*;
use vstd::string::StringExecFns;
use crate::listing::IoError;
use crate::path::PanelPath;

verus! {

/// The text of a file, as far as it was read.
#[derive(Debug)]
pub struct TextFileViewer {
    file: PanelPath,
    buffer: String,
}

impl TextFileViewer {
    /// The path of the file.
    pub closed spec fn path(&self) -> Seq<Seq<char>> {
        self.file@
    }

    /// The text read so far.
    pub closed spec fn text(&self) -> Seq<char> {
        self.buffer@
    }

    /// A viewer of the file at the given path, with nothing read yet.
    pub fn new(path: PanelPath) -> (r: Self)
        ensures
            r.path() == path@,
            r.text() == Seq::<char>::empty(),
    {
        TextFileViewer { file: path, buffer: String::new() }
    }

    /// Takes what was read of the file: the text is put behind what was
    /// read before. A failed read is handed back, and the text stays.
    pub fn read(&mut self, contents: Result<String, IoError>) -> (r: Result<(), IoError>)
        ensures
            final(self).path() == old(self).path(),
            match contents {
                Ok(text) => r is Ok && final(self).text() == old(self).text() + text@,
                Err(error) => r == Err::<(), IoError>(error) && final(self).text() == old(
                    self,
                ).text(),
            },
    {
        match contents {
            Ok(text) => {
                self.buffer.append(text.as_str());
                Ok(())
            },
            Err(error) => Err(error),
        }
    }

    /// The path of the file.
    pub fn file(&self) -> (r: &PanelPath)
        ensures
            r@ == self.path(),
    {
        &self.file
    }

    /// The text read so far.
    pub fn buffer(&self) -> (r: &String)
        ensures
            r@ == self.text(),
    {
        &self.buffer
    }
}

} // verus!
