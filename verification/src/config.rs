//! The settings that the demo is started with, and the reading of the text
//! they are written in.

use crate::depth::{measure, nesting};
use crate::errors::Error;
use crate::text::{decimal, to_decimal};
use vstd::prelude::*;
use vstd::string::StringExecFns;

verus! {

/// Where the demo's files lie.
#[derive(Debug)]
pub struct Paths {
    root: String,
    assets: String,
    shaders: String,
}

impl Paths {
    /// The three directories, as they will be handed out.
    pub closed spec fn view(&self) -> (Seq<char>, Seq<char>, Seq<char>) {
        (self.root@, self.assets@, self.shaders@)
    }

    /// The paths as configured.
    pub fn new(root: String, assets: String, shaders: String) -> (paths: Paths)
        ensures
            paths@ == (root@, assets@, shaders@),
    {
        Paths { root, assets, shaders }
    }

    /// The directory that everything lies under.
    pub fn root(&self) -> (path: &str)
        ensures
            path@ == self@.0,
    {
        self.root.as_str()
    }

    /// The directory of images and models.
    pub fn assets(&self) -> (path: &str)
        ensures
            path@ == self@.1,
    {
        self.assets.as_str()
    }

    /// The directory of shader sources.
    pub fn shaders(&self) -> (path: &str)
        ensures
            path@ == self@.2,
    {
        self.shaders.as_str()
    }
}

impl Clone for Paths {
    fn clone(&self) -> (copy: Paths)
        ensures
            copy@ == self@,
    {
        Paths {
            root: self.root.clone(),
            assets: self.assets.clone(),
            shaders: self.shaders.clone(),
        }
    }
}

/// How the window and its drawing surface are to be made.
#[derive(Debug, Clone, Copy)]
pub struct WindowParams {
    pub multisampling: u16,
    pub vsync: bool,
    pub depth_bits: Option<u8>,
    pub stencil_bits: Option<u8>,
    pub color_bits: Option<u8>,
    pub alpha_bits: Option<u8>,
    pub srgb: Option<bool>,
    pub transparent: bool,
}

/// One thing asked of the window builder.
#[derive(Debug, Clone, Copy, PartialEq, Eq, Structural)]
pub enum WindowSetting {
    Multisampling(u16),
    Vsync,
    DepthBuffer(u8),
    StencilBuffer(u8),
    PixelFormat(u8, u8),
    Srgb(Option<bool>),
    Transparency(bool),
}

/// One setting if `wanted`, none otherwise.
pub open spec fn when(wanted: bool, setting: WindowSetting) -> Seq<WindowSetting> {
    if wanted {
        seq![setting]
    } else {
        Seq::empty()
    }
}

impl WindowParams {
    /// The parameters as configured: no multisampling, no vsync and no
    /// transparency unless asked for.
    pub fn new(
        multisampling: Option<u16>,
        vsync: Option<bool>,
        depth_bits: Option<u8>,
        stencil_bits: Option<u8>,
        color_bits: Option<u8>,
        alpha_bits: Option<u8>,
        srgb: Option<bool>,
        transparent: Option<bool>,
    ) -> (params: WindowParams)
        ensures
            params == (WindowParams {
                multisampling: multisampling.unwrap_or(0),
                vsync: vsync.unwrap_or(false),
                depth_bits,
                stencil_bits,
                color_bits,
                alpha_bits,
                srgb,
                transparent: transparent.unwrap_or(false),
            }),
    {
        WindowParams {
            multisampling: multisampling.unwrap_or(0),
            vsync: vsync.unwrap_or(false),
            depth_bits,
            stencil_bits,
            color_bits,
            alpha_bits,
            srgb,
            transparent: transparent.unwrap_or(false),
        }
    }

    /// What is asked of the window builder, in the order of asking:
    /// multisampling always; vsync, a depth buffer and a stencil buffer where
    /// configured; a pixel format only where both its colour and its alpha
    /// bits are configured; then sRGB and transparency, always.
    pub open spec fn settings(self) -> Seq<WindowSetting> {
        seq![WindowSetting::Multisampling(self.multisampling)]
            + when(self.vsync, WindowSetting::Vsync)
            + when(self.depth_bits is Some, WindowSetting::DepthBuffer(self.depth_bits.unwrap()))
            + when(
            self.stencil_bits is Some,
            WindowSetting::StencilBuffer(self.stencil_bits.unwrap()),
        ) + when(
            self.color_bits is Some && self.alpha_bits is Some,
            WindowSetting::PixelFormat(self.color_bits.unwrap(), self.alpha_bits.unwrap()),
        ) + seq![WindowSetting::Srgb(self.srgb), WindowSetting::Transparency(self.transparent)]
    }

    /// The settings to hand to the window builder, one after the other.
    pub fn to_window_builder(&self) -> (asked: Vec<WindowSetting>)
        ensures
            asked@ == self.settings(),
    {
        let mut asked = Vec::new();
        asked.push(WindowSetting::Multisampling(self.multisampling));
        if self.vsync {
            asked.push(WindowSetting::Vsync);
        }
        if let Some(bits) = self.depth_bits {
            asked.push(WindowSetting::DepthBuffer(bits));
        }
        if let Some(bits) = self.stencil_bits {
            asked.push(WindowSetting::StencilBuffer(bits));
        }
        if let (Some(color), Some(alpha)) = (self.color_bits, self.alpha_bits) {
            asked.push(WindowSetting::PixelFormat(color, alpha));
        }
        asked.push(WindowSetting::Srgb(self.srgb));
        asked.push(WindowSetting::Transparency(self.transparent));
        assert(asked@ =~= self.settings());
        asked
    }
}

/// A TOML value of the `toml` crate: carried through, never looked into.
#[verifier::external_type_specification]
#[verifier::external_body]
pub struct ExValue(toml::Value);

/// One fault as the TOML parser reports it: the byte at which it begins, the
/// byte just behind it, and what is wrong.
#[derive(Debug, PartialEq, Eq)]
pub struct Fault {
    pub lo: usize,
    pub hi: usize,
    pub desc: String,
}

/// One fault with its two ends as line and column, both counted from 0.
#[derive(Debug, PartialEq, Eq)]
pub struct Located {
    pub lo: (usize, usize),
    pub hi: (usize, usize),
    pub desc: String,
}

/// The deepest that a text may be nested to be read.
pub const MAX_NESTING: usize = 512;

/// What the TOML parser makes of a text: the table it holds, or the faults
/// found in it.
pub uninterp spec fn toml_parsed(text: Seq<char>) -> Result<toml::Table, Seq<Fault>>;

/// The line and column that the TOML parser gives for a byte offset into a
/// text.
pub uninterp spec fn toml_linecol(text: Seq<char>, offset: usize) -> (usize, usize);

/// Runs `toml::Parser::parse` on a parser that `toml::Parser::new` made for
/// `text`. A table that it gives is handed on. Where it gives none, the
/// entries of the parser's `errors` are handed on, field for field.
///
/// The parser calls itself once for each array or inline table that lies
/// within another, and the table it gives is as deep as its tables' names
/// have dots. Only a text that `nesting` finds shallow is handed to it.
///
/// Believed, not proved: `nesting` tells strings and comments from the rest
/// as the parser does, so that no text is nested deeper than it says and the
/// parser returns on a text within the limit; and the outcome depends on the
/// text alone.
#[verifier::external_body]
fn read_table(text: &str) -> (read: Result<toml::Table, Vec<Fault>>)
    requires
        nesting(text@) <= MAX_NESTING,
    ensures
        match read {
            Ok(table) => toml_parsed(text@) == Ok::<toml::Table, Seq<Fault>>(table),
            Err(faults) => toml_parsed(text@) == Err::<toml::Table, Seq<Fault>>(faults@),
        },
{
    let mut parser = toml::Parser::new(text);
    match parser.parse() {
        Some(table) => Ok(table),
        None => Err(
            parser.errors.into_iter().map(|e| Fault { lo: e.lo, hi: e.hi, desc: e.desc }).collect(),
        ),
    }
}

/// Asks `toml::Parser::to_linecol`, on a parser that `toml::Parser::new` made
/// for `text`, where the byte at `offset` lies.
///
/// Believed, not proved: the answer depends on the text and the offset alone.
#[verifier::external_body]
fn line_and_column(text: &str, offset: usize) -> (at: (usize, usize))
    ensures
        at == toml_linecol(text@, offset),
{
    toml::Parser::new(text).to_linecol(offset)
}

/// A fault of `text` with its two ends as line and column.
pub open spec fn located(text: Seq<char>, fault: Fault) -> Located {
    Located {
        lo: toml_linecol(text, fault.lo),
        hi: toml_linecol(text, fault.hi),
        desc: fault.desc,
    }
}

/// Finds line and column for the two ends of each fault of `text`.
pub fn locate(text: &str, faults: &Vec<Fault>) -> (found: Vec<Located>)
    ensures
        found@ == faults@.map_values(|fault: Fault| located(text@, fault)),
{
    let mut found: Vec<Located> = Vec::new();
    let mut at: usize = 0;
    while at < faults.len()
        invariant
            at <= faults.len(),
            found@ == faults@.take(at as int).map_values(|fault: Fault| located(text@, fault)),
        decreases faults.len() - at,
    {
        let fault = &faults[at];
        found.push(
            Located {
                lo: line_and_column(text, fault.lo),
                hi: line_and_column(text, fault.hi),
                desc: fault.desc.clone(),
            },
        );
        at += 1;
        assert(found@ =~= faults@.take(at as int).map_values(
            |fault: Fault| located(text@, fault),
        ));
    }
    assert(faults@.take(at as int) =~= faults@);
    found
}

/// A place in a text as a reader counts it: line and column from 1.
pub open spec fn place(at: (usize, usize)) -> Seq<char> {
    decimal((at.0 + 1) as nat) + seq![':'] + decimal((at.1 + 1) as nat)
}

/// The line that reports one fault of the file at `path`: the path, the
/// place where the fault begins, the place behind it unless that is the same,
/// and what is wrong.
pub open spec fn fault_line(path: Seq<char>, fault: Located) -> Seq<char> {
    let range = if fault.lo != fault.hi {
        seq!['-'] + place(fault.hi)
    } else {
        Seq::empty()
    };
    path + seq![':'] + place(fault.lo) + range + seq![' '] + fault.desc@ + seq!['\n']
}

/// The lines that report the faults of the file at `path`, in their order.
pub open spec fn fault_lines(path: Seq<char>, faults: Seq<Located>) -> Seq<char>
    decreases faults.len(),
{
    if faults.len() == 0 {
        Seq::empty()
    } else {
        fault_lines(path, faults.drop_last()) + fault_line(path, faults.last())
    }
}

/// Appends a place to a text.
fn append_place(text: &mut String, at: (usize, usize))
    ensures
        final(text)@ == old(text)@ + place(at),
{
    proof {
        reveal_strlit(":");
    }
    let ghost before = text@;
    text.append(to_decimal(at.0 as u128 + 1).as_str());
    text.append(":");
    text.append(to_decimal(at.1 as u128 + 1).as_str());
    assert(text@ =~= before + place(at));
}

/// Appends the line that reports one fault.
fn append_fault(text: &mut String, path: &str, fault: &Located)
    ensures
        final(text)@ == old(text)@ + fault_line(path@, *fault),
{
    proof {
        reveal_strlit(":");
        reveal_strlit("-");
        reveal_strlit(" ");
        reveal_strlit("\n");
    }
    let ghost before = text@;
    text.append(path);
    text.append(":");
    append_place(text, fault.lo);
    if fault.lo.0 != fault.hi.0 || fault.lo.1 != fault.hi.1 {
        text.append("-");
        append_place(text, fault.hi);
    }
    text.append(" ");
    text.append(fault.desc.as_str());
    text.append("\n");
    assert(text@ =~= before + fault_line(path@, *fault));
}

/// The error that reports the faults found in the file at `path`.
pub fn parse_error(path: &str, faults: &Vec<Located>) -> (error: Error)
    ensures
        error.message() == "parse error"@,
        error.detail() == Some(fault_lines(path@, faults@)),
{
    let mut lines = String::new();
    let mut at: usize = 0;
    while at < faults.len()
        invariant
            at <= faults.len(),
            lines@ == fault_lines(path@, faults@.take(at as int)),
        decreases faults.len() - at,
    {
        append_fault(&mut lines, path, &faults[at]);
        proof {
            assert(faults@.take(at + 1).drop_last() =~= faults@.take(at as int));
        }
        at += 1;
    }
    assert(faults@.take(at as int) =~= faults@);
    Error::with_detail("parse error", lines.as_str())
}

/// The error for a text that is nested deeper than is read: it names the
/// file.
pub fn too_deep(path: &str) -> (error: Error)
    ensures
        error.message() == "nested too deeply"@,
        error.detail() == Some(path@),
{
    Error::with_detail("nested too deeply", path)
}

/// Reads the text of the settings file at `path` as a TOML table.
///
/// A text that may be nested deeper than `MAX_NESTING` is not read: the
/// parser could not follow it. Where the text is no TOML, the error lists
/// every fault with its place in the file.
pub fn parse(text: &str, path: &str) -> (parsed: Result<toml::Table, Error>)
    ensures
        nesting(text@) > MAX_NESTING <==> (parsed matches Err(error) && error.message()
            == "nested too deeply"@),
        nesting(text@) > MAX_NESTING ==> (parsed matches Err(error) && error.detail() == Some(
            path@,
        )),
        nesting(text@) <= MAX_NESTING ==> match toml_parsed(text@) {
            Ok(table) => parsed == Ok::<toml::Table, Error>(table),
            Err(faults) => parsed matches Err(error) && error.message() == "parse error"@
                && error.detail() == Some(
                fault_lines(path@, faults.map_values(|fault: Fault| located(text@, fault))),
            ),
        },
{
    proof {
        reveal_strlit("parse error");
        reveal_strlit("nested too deeply");
        assert("parse error"@.len() != "nested too deeply"@.len());
    }
    let (open, dots) = measure(text);
    if open > MAX_NESTING || dots > MAX_NESTING - open {
        return Err(too_deep(path));
    }
    match read_table(text) {
        Ok(table) => Ok(table),
        Err(faults) => Err(parse_error(path, &locate(text, &faults))),
    }
}

} // verus!
