//! The record of an unrecoverable failure, and how it leaves the library.
//!
//! A failure hook captures the message, the place and a call stack whose
//! frames are filtered down to the add-on's own. The record waits in a slot
//! until the outermost export wrapper takes it, either to report it to the
//! host and go on, or to crash the host call with a reason.
use vstd::prelude::*;
use vstd::utf8::encode_utf8;
use vstd::string::{StringSliceAdditionalSpecFns, is_ascii};
use crate::string::{find_nul, is_first_nul, nul_free, string_payload};
use std::collections::HashMap;

verus! {

broadcast use vstd::std_specs::hash::group_hash_axioms;

/// Information about the origin of the code that caused a panic.
#[derive(Debug)]
pub struct PanicLocation {
    /// The source file containing the code that resulted in the panic.
    pub file: String,
    /// The line of that file.
    pub line: u32,
}

/// A frame in a panic backtrace.
#[derive(Debug)]
pub struct PanicFrame {
    /// The name of the function called in this frame.
    pub name: String,
    /// The source file containing the code of this frame.
    pub file: Option<String>,
    /// The line number of this frame.
    pub line: Option<u32>,
    /// The memory address of this frame.
    pub address: Option<String>,
    /// The module (shared library) of this frame.
    pub module: Option<String>,
}

/// A frame as the stack walker hands it over, before filtering.
#[derive(Debug)]
pub struct RawFrame {
    pub name: Option<String>,
    pub file: Option<String>,
    pub line: Option<u32>,
    pub address: Option<String>,
    pub module: Option<String>,
}

/// A panic that occurred in the code.
#[derive(Debug)]
pub struct Panic {
    /// The panic message.
    pub message: Option<String>,
    /// The location of the panic.
    pub location: Option<PanicLocation>,
    /// The backtrace of the panic.
    pub backtrace: Vec<PanicFrame>,
}

/// `b` with ASCII capitals made lower case when `fold` holds.
pub open spec fn fold_case(b: Seq<u8>, fold: bool) -> Seq<u8> {
    if fold {
        b.map_values(|c: u8| if 65 <= c <= 90 { (c + 32) as u8 } else { c })
    } else {
        b
    }
}

/// `needle` occurs in `haystack`.
pub open spec fn occurs_in(needle: Seq<u8>, haystack: Seq<u8>) -> bool {
    exists|k: int|
        0 <= k <= haystack.len() - needle.len() && #[trigger] haystack.subrange(
            k,
            k + needle.len(),
        ) == needle
}

/// One of `patterns` occurs in `haystack`, ASCII case aside when `fold`.
pub open spec fn matches_any_spec(patterns: Seq<&str>, haystack: Seq<u8>, fold: bool) -> bool {
    exists|i: int|
        0 <= i < patterns.len() && occurs_in(
            fold_case(#[trigger] patterns[i].spec_bytes(), fold),
            fold_case(haystack, fold),
        )
}

/// Relies on aho-corasick: an automaton built from `patterns`, with ASCII
/// case folding when asked, matches a haystack exactly when one of the
/// patterns occurs in it. Building fails only past size limits far above the
/// bound required here.
#[verifier::external_body]
fn matches_any(patterns: &Vec<&str>, haystack: &str, ascii_case_insensitive: bool) -> (r: bool)
    requires
        patterns@.len() <= 64,
        forall|i: int| 0 <= i < patterns@.len() ==> (#[trigger] patterns@[i]).spec_bytes().len() <= 64,
    ensures
        r == matches_any_spec(patterns@, haystack.spec_bytes(), ascii_case_insensitive),
{
    aho_corasick::AhoCorasick::builder()
        .ascii_case_insensitive(ascii_case_insensitive)
        .build(patterns)
        .map(|matcher| matcher.is_match(haystack))
        .unwrap_or(false)
}

proof fn short_ascii_all(patterns: Seq<&str>)
    requires
        forall|i: int| 0 <= i < patterns.len() ==> is_ascii(#[trigger] patterns[i]) && patterns[i]@.len() <= 64,
    ensures
        forall|i: int| 0 <= i < patterns.len() ==> (#[trigger] patterns[i]).spec_bytes().len() <= 64,
{
    broadcast use vstd::string::group_string_axioms;

    assert forall|i: int| 0 <= i < patterns.len() implies (#[trigger] patterns[i]).spec_bytes().len() <= 64 by {
        assert(is_ascii(patterns[i]));
    }
}

/// Fragments of the names of the runtime's and std's own frames.
pub open spec fn internal_names_spec() -> Seq<&'static str> {
    seq![
        "std::rt::",
        "std::panicking",
        "core::ops",
        "std::sys::",
        "runtime::",
        "<core::",
        "__rust_",
        "sys_common::",
        "panic_fmt",
        "rust_begin_unwind",
        "catch_unwind",
        "panic::",
        "lang_start",
        "libc_start_main",
        "_start",
        "try::do_call",
        "function::impls",
        "setup_panic_hook",
        "Ordinal",
    ]
}

/// Fragments of the names of the runtime's and std's own frames.
pub fn internal_names() -> (r: Vec<&'static str>)
    ensures
        r@ == internal_names_spec(),
        r@.len() <= 64,
        forall|i: int| 0 <= i < r@.len() ==> (#[trigger] r@[i]).spec_bytes().len() <= 64,
{
    let r = vec![
        "std::rt::",
        "std::panicking",
        "core::ops",
        "std::sys::",
        "runtime::",
        "<core::",
        "__rust_",
        "sys_common::",
        "panic_fmt",
        "rust_begin_unwind",
        "catch_unwind",
        "panic::",
        "lang_start",
        "libc_start_main",
        "_start",
        "try::do_call",
        "function::impls",
        "setup_panic_hook",
        "Ordinal",
    ];
    proof {
        reveal_strlit("std::rt::");
        reveal_strlit("std::panicking");
        reveal_strlit("core::ops");
        reveal_strlit("std::sys::");
        reveal_strlit("runtime::");
        reveal_strlit("<core::");
        reveal_strlit("__rust_");
        reveal_strlit("sys_common::");
        reveal_strlit("panic_fmt");
        reveal_strlit("rust_begin_unwind");
        reveal_strlit("catch_unwind");
        reveal_strlit("panic::");
        reveal_strlit("lang_start");
        reveal_strlit("libc_start_main");
        reveal_strlit("_start");
        reveal_strlit("try::do_call");
        reveal_strlit("function::impls");
        reveal_strlit("setup_panic_hook");
        reveal_strlit("Ordinal");
        assert(r@ =~= internal_names_spec());
        short_ascii_all(r@);
    }
    r
}

/// Fragments of the source paths of std, core and libc.
pub open spec fn internal_paths_spec() -> Seq<&'static str> {
    seq![
        "/std/src/",
        "/core/src/",
        "/libc/",
        "\\std\\src\\",
        "\\core\\src\\",
        "\\libc\\",
    ]
}

/// Fragments of the source paths of std, core and libc.
pub fn internal_paths() -> (r: Vec<&'static str>)
    ensures
        r@ == internal_paths_spec(),
        r@.len() <= 64,
        forall|i: int| 0 <= i < r@.len() ==> (#[trigger] r@[i]).spec_bytes().len() <= 64,
{
    let r = vec![
        "/std/src/",
        "/core/src/",
        "/libc/",
        "\\std\\src\\",
        "\\core\\src\\",
        "\\libc\\",
    ];
    proof {
        reveal_strlit("/std/src/");
        reveal_strlit("/core/src/");
        reveal_strlit("/libc/");
        reveal_strlit("\\std\\src\\");
        reveal_strlit("\\core\\src\\");
        reveal_strlit("\\libc\\");
        assert(r@ =~= internal_paths_spec());
        short_ascii_all(r@);
    }
    r
}

/// The host's and the system's own modules, matched without regard to ASCII case.
pub open spec fn host_modules_spec() -> Seq<&'static str> {
    seq![
        "user32.dll",
        "byondcore.dll",
        "ntdll.dll",
        "kernel32.dll",
        "libbyond.so",
    ]
}

/// The host's and the system's own modules, matched without regard to ASCII case.
pub fn host_modules() -> (r: Vec<&'static str>)
    ensures
        r@ == host_modules_spec(),
        r@.len() <= 64,
        forall|i: int| 0 <= i < r@.len() ==> (#[trigger] r@[i]).spec_bytes().len() <= 64,
{
    let r = vec![
        "user32.dll",
        "byondcore.dll",
        "ntdll.dll",
        "kernel32.dll",
        "libbyond.so",
    ];
    proof {
        reveal_strlit("user32.dll");
        reveal_strlit("byondcore.dll");
        reveal_strlit("ntdll.dll");
        reveal_strlit("kernel32.dll");
        reveal_strlit("libbyond.so");
        assert(r@ =~= host_modules_spec());
        short_ascii_all(r@);
    }
    r
}

proof fn bytes_determine_text(a: Seq<char>, b: Seq<char>)
    requires
        encode_utf8(a) == encode_utf8(b),
    ensures
        a == b,
{
    vstd::utf8::encode_utf8_decode_utf8(a);
    vstd::utf8::encode_utf8_decode_utf8(b);
}

/// Whether `name` is exactly `main`.
fn is_main(name: &str) -> (r: bool)
    ensures
        r == (name@ == "main"@),
{
    let b = name.as_bytes();
    proof {
        reveal_strlit("main");
        broadcast use vstd::string::group_string_axioms;
        assert(is_ascii("main"));
        assert("main".spec_bytes() =~= seq![109u8, 97u8, 105u8, 110u8]);
    }
    let r = b.len() == 4 && b[0] == 109 && b[1] == 97 && b[2] == 105 && b[3] == 110;
    proof {
        if r {
            assert(name.spec_bytes() =~= "main".spec_bytes());
            bytes_determine_text(name@, "main"@);
        }
    }
    r
}

/// The frame of a function called `name`, in source file `file`, is the
/// add-on's own: it has a name, not `main`, and neither the name nor the file
/// is one of the runtime's or std's.
pub open spec fn relevant_symbol_spec(name: Option<String>, file: Option<String>) -> bool {
    match name {
        None => false,
        Some(n) => n@ != "main"@ && !matches_any_spec(internal_names_spec(), encode_utf8(n@), false)
            && !(file is Some && matches_any_spec(
            internal_paths_spec(),
            encode_utf8(file->Some_0@),
            false,
        )),
    }
}

/// A frame in `module` is the add-on's own: an unknown module, or one that
/// is not the host's or the system's.
pub open spec fn relevant_module_spec(module: Option<String>) -> bool {
    match module {
        None => true,
        Some(m) => !matches_any_spec(host_modules_spec(), encode_utf8(m@), true),
    }
}

/// A frame is kept when both its symbol and its module are the add-on's own.
pub open spec fn keep_frame(f: RawFrame) -> bool {
    relevant_module_spec(f.module) && relevant_symbol_spec(f.name, f.file)
}

/// The recorded form of a kept frame.
pub open spec fn recorded_frame(f: RawFrame) -> PanicFrame {
    PanicFrame {
        name: f.name->Some_0,
        file: f.file,
        line: f.line,
        address: f.address,
        module: f.module,
    }
}

/// The recorded frames of `frames`: the kept ones, in order.
pub open spec fn kept_frames(frames: Seq<RawFrame>) -> Seq<PanicFrame>
    decreases frames.len(),
{
    if frames.len() == 0 {
        Seq::empty()
    } else {
        let rest = kept_frames(frames.drop_last());
        if keep_frame(frames.last()) {
            rest.push(recorded_frame(frames.last()))
        } else {
            rest
        }
    }
}

/// Whether a frame of the function `name`, in `file`, is the add-on's own.
pub fn is_relevant_symbol(name: &Option<String>, file: &Option<String>) -> (r: bool)
    ensures
        r == relevant_symbol_spec(*name, *file),
{
    match name {
        None => false,
        Some(n) => {
            if is_main(n.as_str()) {
                return false;
            }
            let names = internal_names();
            if matches_any(&names, n.as_str(), false) {
                return false;
            }
            match file {
                None => true,
                Some(f) => {
                    let paths = internal_paths();
                    !matches_any(&paths, f.as_str(), false)
                },
            }
        },
    }
}

/// Whether a frame in `module` is the add-on's own.
pub fn is_relevant_module(module: &Option<String>) -> (r: bool)
    ensures
        r == relevant_module_spec(*module),
{
    match module {
        None => true,
        Some(m) => {
            let modules = host_modules();
            !matches_any(&modules, m.as_str(), true)
        },
    }
}

/// The frames of a backtrace that are the add-on's own, in order.
pub fn filter_frames(frames: Vec<RawFrame>) -> (r: Vec<PanicFrame>)
    ensures
        r@ == kept_frames(frames@),
{
    let ghost all = frames@;
    let mut rest = frames;
    let mut r: Vec<PanicFrame> = Vec::new();
    while rest.len() > 0
        invariant
            rest@ == all.skip(all.len() - rest@.len()),
            rest@.len() <= all.len(),
            r@ == kept_frames(all.take(all.len() - rest@.len())),
        decreases rest@.len(),
    {
        let ghost done = (all.len() - rest@.len()) as int;
        let f = rest.remove(0);
        proof {
            assert(f == all[done]);
            assert(all.take(done + 1).drop_last() =~= all.take(done));
            assert(rest@ =~= all.skip(all.len() - rest@.len()));
        }
        let keep = is_relevant_module(&f.module) && is_relevant_symbol(&f.name, &f.file);
        if keep {
            match f.name {
                Some(name) => {
                    r.push(
                        PanicFrame {
                            name,
                            file: f.file,
                            line: f.line,
                            address: f.address,
                            module: f.module,
                        },
                    );
                },
                None => {},
            }
        }
    }
    proof {
        assert(all.take(all.len() as int) =~= all);
    }
    r
}

/// The reason handed to the host's crash call: the bytes of `reason` up to
/// its first NUL, if any, and a terminating NUL.
pub fn crash_reason(reason: &str) -> (r: Vec<u8>)
    ensures
        nul_free(reason.spec_bytes()) ==> r@ == reason.spec_bytes().push(0),
        forall|p: int| #[trigger] is_first_nul(reason.spec_bytes(), p) ==> r@ == reason.spec_bytes().take(p).push(0),
{
    let bytes = reason.as_bytes();
    match find_nul(bytes) {
        None => string_payload(bytes),
        Some(p) => {
            let mut kept: Vec<u8> = Vec::new();
            let mut i: usize = 0;
            while i < p
                invariant
                    i <= p,
                    p < bytes@.len(),
                    kept@ == bytes@.take(i as int),
                decreases p - i,
            {
                kept.push(bytes[i]);
                i = i + 1;
                assert(kept@ =~= bytes@.take(i as int));
            }
            proof {
                assert forall|q: int| is_first_nul(bytes@, q) implies q == p as int by {
                    if q < p as int {
                        assert(bytes@[q] == 0);
                    } else if q > p as int {
                        assert(bytes@[p as int] != 0);
                    }
                }
            }
            kept.push(0);
            kept
        },
    }
}

/// The slot of the last failure captured on a thread.
#[derive(Debug)]
pub struct LastPanic {
    pub slot: Option<Panic>,
}

impl LastPanic {
    /// No failure captured.
    pub fn new() -> (r: LastPanic)
        ensures
            r.slot is None,
    {
        LastPanic { slot: None }
    }

    /// Captures a failure: its message, if the payload was one, where it
    /// happened, and the raw backtrace. A failure with no message is not
    /// diagnostic and is discarded; any other replaces the record in the slot.
    pub fn capture(
        &mut self,
        message: Option<String>,
        location: Option<PanicLocation>,
        frames: Vec<RawFrame>,
    )
        ensures
            message is None ==> final(self).slot == old(self).slot,
            message is Some ==> final(self).slot == Some(
                Panic { message, location, backtrace: final(self).slot->Some_0.backtrace },
            ),
            message is Some ==> final(self).slot->Some_0.backtrace@ == kept_frames(frames@),
    {
        if message.is_some() {
            let backtrace = filter_frames(frames);
            self.slot = Some(Panic { message, location, backtrace });
        }
    }

    /// Takes the captured failure, if any, leaving the slot empty.
    pub fn take(&mut self) -> (r: Option<Panic>)
        ensures
            r == old(self).slot,
            final(self).slot is None,
    {
        let mut taken: Option<Panic> = None;
        std::mem::swap(&mut taken, &mut self.slot);
        taken
    }
}

/// The first step of resolving the module that holds a frame's base address.
#[derive(Debug)]
pub enum ModuleLookup {
    /// A null address belongs to no module.
    NoModule,
    /// The cache holds the module's name, or that it has none.
    Cached(Option<String>),
    /// Resolve the name with the system and record it.
    Miss,
}

/// The cache of module names by base address.
pub struct ModuleNameCache {
    entries: HashMap<usize, Option<String>>,
}

impl View for ModuleNameCache {
    type V = Map<usize, Option<String>>;

    closed spec fn view(&self) -> Map<usize, Option<String>> {
        self.entries@
    }
}

fn clone_name(name: &Option<String>) -> (r: Option<String>)
    ensures
        r == *name,
{
    match name {
        Some(n) => Some(n.clone()),
        None => None,
    }
}

impl ModuleNameCache {
    /// An empty cache, sized for the few modules of a process.
    pub fn new() -> (r: ModuleNameCache)
        ensures
            r@ == Map::<usize, Option<String>>::empty(),
    {
        ModuleNameCache { entries: HashMap::with_capacity(8) }
    }

    /// The first step of resolving the module at `base_address`.
    pub fn lookup(&self, base_address: usize) -> (r: ModuleLookup)
        ensures
            base_address == 0 ==> r is NoModule,
            base_address != 0 && self@.contains_key(base_address) ==> r == ModuleLookup::Cached(
                self@[base_address],
            ),
            base_address != 0 && !self@.contains_key(base_address) ==> r is Miss,
    {
        if base_address == 0 {
            return ModuleLookup::NoModule;
        }
        match self.entries.get(&base_address) {
            Some(name) => ModuleLookup::Cached(clone_name(name)),
            None => ModuleLookup::Miss,
        }
    }

    /// Records the name that the system gave for the module at
    /// `base_address`, and returns the name that the lookup gives: an entry
    /// already there wins.
    pub fn record(&mut self, base_address: usize, name: Option<String>) -> (r: Option<String>)
        ensures
            old(self)@.contains_key(base_address) ==> final(self)@ == old(self)@ && r == old(
                self,
            )@[base_address],
            !old(self)@.contains_key(base_address) ==> final(self)@ == old(self)@.insert(
                base_address,
                name,
            ) && r == name,
    {
        match self.entries.get(&base_address) {
            Some(existing) => clone_name(existing),
            None => {
                let kept = clone_name(&name);
                self.entries.insert(base_address, name);
                kept
            },
        }
    }
}

} // verus!
