//! What the player is asked to do: which file to read, where to write, and
//! which voices to mute.

use vstd::prelude::*;
use std::path::PathBuf;

verus! {

/// `std::path::PathBuf`, a path owned like a `String`. Nothing is known of
/// what it holds: paths are carried, never read.
#[verifier::external_type_specification]
#[verifier::external_body]
pub struct ExPathBuf(PathBuf);

/// The arguments as plain values.
pub struct ArgsModel {
    /// Path of the input file.
    pub input_file: PathBuf,
    /// Path of the output file, where one was given.
    pub output_file: Option<PathBuf>,
    /// Mute flags of the four voices, voice 0 first.
    pub mutes: Seq<bool>,
}

/// Arguments of a µMML player / synthesizer. Their contracts speak of their
/// view; `input_file`, `output_file` and `mutes` read the fields for them.
pub struct MMMLPlayerArgs {
    /// Input file in .mbf, .mmmldata or .mmml
    pub input_file: PathBuf,
    /// Output file (in wav format)
    output_file: Option<PathBuf>,
    /// Mute channel 1
    pub ch1_muted: bool,
    /// Mute channel 2
    pub ch2_muted: bool,
    /// Mute channel 3
    pub ch3_muted: bool,
    /// Mute channel 4
    pub ch4_muted: bool,
}

impl View for MMMLPlayerArgs {
    type V = ArgsModel;

    closed spec fn view(&self) -> ArgsModel {
        ArgsModel {
            input_file: self.input_file,
            output_file: self.output_file,
            mutes: seq![self.ch1_muted, self.ch2_muted, self.ch3_muted, self.ch4_muted],
        }
    }
}

/// Whether `c` separates the components of a path on some platform.
pub open spec fn is_separator(c: char) -> bool {
    c == '/' || c == '\\'
}

/// `Clone::clone` of `std::path::PathBuf`: the copy is the same path.
#[verifier::external_body]
fn duplicate(path: &PathBuf) -> (r: PathBuf)
    ensures
        r == *path,
{
    path.clone()
}

/// `std::path::Path::with_extension`. Nothing is claimed of the result:
/// where the file name of a path begins is a matter of the platform. An
/// extension that holds a path separator is kept out, since the function
/// panics on it.
#[verifier::external_body]
fn with_extension(path: &PathBuf, extension: &str) -> (r: PathBuf)
    requires
        forall|i: int| 0 <= i < extension@.len() ==> !is_separator(#[trigger] extension@[i]),
{
    path.with_extension(extension)
}

impl MMMLPlayerArgs {
    /// Arguments with the given values.
    pub fn new(
        input_file: PathBuf,
        output_file: Option<PathBuf>,
        ch1_muted: bool,
        ch2_muted: bool,
        ch3_muted: bool,
        ch4_muted: bool,
    ) -> (r: Self)
        ensures
            r@ == (ArgsModel {
                input_file,
                output_file,
                mutes: seq![ch1_muted, ch2_muted, ch3_muted, ch4_muted],
            }),
    {
        MMMLPlayerArgs { input_file, output_file, ch1_muted, ch2_muted, ch3_muted, ch4_muted }
    }

    /// The input file.
    pub fn input_file(&self) -> (r: &PathBuf)
        ensures
            *r == self@.input_file,
    {
        &self.input_file
    }

    /// The output file that was asked for, if any.
    pub fn output_file(&self) -> (r: Option<PathBuf>)
        ensures
            r == self@.output_file,
    {
        match &self.output_file {
            Some(path) => Some(duplicate(path)),
            None => None,
        }
    }

    /// The output file that was asked for, else `fallback`.
    pub fn output_path_or(&self, fallback: PathBuf) -> (r: PathBuf)
        ensures
            r == match self@.output_file {
                Some(path) => path,
                None => fallback,
            },
    {
        match &self.output_file {
            Some(path) => duplicate(path),
            None => fallback,
        }
    }

    /// Where the audio goes: the output file that was asked for, else the
    /// input file with the extension `wav`, as the platform's path syntax
    /// makes it.
    pub fn get_output_path(&self) -> (r: PathBuf)
        ensures
            self@.output_file matches Some(path) ==> r == path,
    {
        proof {
            reveal_strlit("wav");
        }
        let fallback = with_extension(&self.input_file, "wav");
        self.output_path_or(fallback)
    }

    /// The mute flags of the four voices, voice 0 first.
    pub fn mutes(&self) -> (r: [bool; 4])
        ensures
            r@ == self@.mutes,
    {
        let r: [bool; 4] = [self.ch1_muted, self.ch2_muted, self.ch3_muted, self.ch4_muted];
        assert(r@ =~= self@.mutes);
        r
    }
}

} // verus!
