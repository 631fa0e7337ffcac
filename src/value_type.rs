//! The closed classification of host value tags.
use vstd::prelude::*;
use crate::text::{concat_text, decimal_text};

verus! {

pub const NULL: u8 = 0x00;
pub const TURF: u8 = 0x01;
pub const OBJ: u8 = 0x02;
pub const MOB: u8 = 0x03;
pub const AREA: u8 = 0x04;
pub const CLIENT: u8 = 0x05;
pub const STRING: u8 = 0x06;
pub const MOB_TYPEPATH: u8 = 0x08;
pub const OBJ_TYPEPATH: u8 = 0x09;
pub const TURF_TYPEPATH: u8 = 0x0A;
pub const AREA_TYPEPATH: u8 = 0x0B;
pub const RESOURCE: u8 = 0x0C;
pub const IMAGE: u8 = 0x0D;
pub const WORLD: u8 = 0x0E;
pub const LIST: u8 = 0x0F;
pub const ARG_LIST: u8 = 0x10;
pub const MOB_CONTENTS: u8 = 0x17;
pub const TURF_CONTENTS: u8 = 0x18;
pub const AREA_CONTENTS: u8 = 0x19;
pub const WORLD_CONTENTS: u8 = 0x1A;
pub const OBJ_CONTENTS: u8 = 0x1C;
pub const DATUM_TYPEPATH: u8 = 0x20;
pub const DATUM: u8 = 0x21;
pub const SAVE_FILE: u8 = 0x23;
pub const PROC_REF: u8 = 0x26;
pub const FILE: u8 = 0x27;
pub const NUMBER: u8 = 0x2A;
pub const MOB_VARS: u8 = 0x2C;
pub const OBJ_VARS: u8 = 0x2D;
pub const TURF_VARS: u8 = 0x2E;
pub const AREA_VARS: u8 = 0x2F;
pub const CLIENT_VARS: u8 = 0x30;
pub const VARS: u8 = 0x31;
pub const MOB_OVERLAYS: u8 = 0x32;
pub const MOB_UNDERLAYS: u8 = 0x33;
pub const OBJ_OVERLAYS: u8 = 0x34;
pub const OBJ_UNDERLAYS: u8 = 0x35;
pub const TURF_OVERLAYS: u8 = 0x36;
pub const TURF_UNDERLAYS: u8 = 0x37;
pub const AREA_OVERLAYS: u8 = 0x38;
pub const AREA_UNDERLAYS: u8 = 0x39;
pub const APPEARANCE: u8 = 0x3A;
pub const POINTER: u8 = 0x3C;
pub const IMAGE_OVERLAYS: u8 = 0x40;
pub const IMAGE_UNDERLAYS: u8 = 0x41;
pub const IMAGE_VARS: u8 = 0x42;
pub const BINARY_OBJECT: u8 = 0x45;
pub const TURF_VIS_CONTENTS: u8 = 0x4B;
pub const OBJ_VIS_CONTENTS: u8 = 0x4C;
pub const MOB_VIS_CONTENTS: u8 = 0x4D;
pub const TURF_VIS_LOCS: u8 = 0x4E;
pub const OBJ_VIS_LOCS: u8 = 0x4F;
pub const MOB_VIS_LOCS: u8 = 0x50;
pub const WORLD_VARS: u8 = 0x51;
pub const GLOBAL_VARS: u8 = 0x52;
pub const FILTERS: u8 = 0x53;
pub const IMAGE_VIS_CONTENTS: u8 = 0x54;
pub const ALIST: u8 = 0x55;
pub const PIXLOC: u8 = 0x56;
pub const VECTOR: u8 = 0x57;
pub const CALLEE: u8 = 0x58;

/// The type tag of a host value.
#[derive(Clone, Copy, Debug, PartialEq, Eq, Structural, Hash)]
pub struct ByondValueType(pub u8);

/// Tags of the lists of an object's contents.
pub open spec fn is_contents_tag(t: u8) -> bool {
    t == MOB_CONTENTS || t == TURF_CONTENTS || t == AREA_CONTENTS || t == WORLD_CONTENTS
        || t == OBJ_CONTENTS
}

/// Tags of the lists of an object's variables.
pub open spec fn is_vars_tag(t: u8) -> bool {
    t == MOB_VARS || t == OBJ_VARS || t == TURF_VARS || t == AREA_VARS || t == CLIENT_VARS
        || t == VARS || t == IMAGE_VARS || t == WORLD_VARS || t == GLOBAL_VARS
}

/// Tags of the lists of static appearances (overlays and underlays).
pub open spec fn is_appearance_list_tag(t: u8) -> bool {
    t == MOB_OVERLAYS || t == MOB_UNDERLAYS || t == OBJ_OVERLAYS || t == OBJ_UNDERLAYS
        || t == TURF_OVERLAYS || t == TURF_UNDERLAYS || t == AREA_OVERLAYS || t == AREA_UNDERLAYS
        || t == IMAGE_OVERLAYS || t == IMAGE_UNDERLAYS
}

/// Tags of `vis_contents` lists.
pub open spec fn is_vis_contents_tag(t: u8) -> bool {
    t == TURF_VIS_CONTENTS || t == OBJ_VIS_CONTENTS || t == MOB_VIS_CONTENTS
        || t == IMAGE_VIS_CONTENTS
}

/// Tags of `vis_locs` lists.
pub open spec fn is_vis_locs_tag(t: u8) -> bool {
    t == TURF_VIS_LOCS || t == OBJ_VIS_LOCS || t == MOB_VIS_LOCS
}

/// Every tag that the host treats as a list.
pub open spec fn is_list_tag(t: u8) -> bool {
    is_contents_tag(t) || is_vars_tag(t) || is_appearance_list_tag(t) || is_vis_contents_tag(t)
        || is_vis_locs_tag(t) || t == LIST || t == ALIST || t == ARG_LIST
}

/// Tags of datums and their built-in subtypes.
pub open spec fn is_datum_tag(t: u8) -> bool {
    t == TURF || t == OBJ || t == MOB || t == AREA || t == IMAGE || t == DATUM
}

/// Tags of typepaths.
pub open spec fn is_path_tag(t: u8) -> bool {
    t == MOB_TYPEPATH || t == OBJ_TYPEPATH || t == TURF_TYPEPATH || t == AREA_TYPEPATH
        || t == DATUM_TYPEPATH
}

/// Tags that can be indexed by an arbitrary string.
pub open spec fn is_string_indexable_tag(t: u8) -> bool {
    is_vars_tag(t) || is_datum_tag(t) || t == CLIENT || t == LIST || t == ALIST || t == ARG_LIST
        || t == APPEARANCE || t == WORLD
}

/// Tags of values that have procs that can be called.
pub open spec fn is_proc_having_tag(t: u8) -> bool {
    is_list_tag(t) || is_datum_tag(t) || t == CLIENT
}

/// Tags of values on which the user can define procs.
pub open spec fn is_proc_definable_tag(t: u8) -> bool {
    is_datum_tag(t) || t == CLIENT
}

/// Tags that can be indexed in some way.
pub open spec fn is_indexable_tag(t: u8) -> bool {
    is_proc_having_tag(t) || t == APPEARANCE || t == WORLD
}

/// Tags that the host reference-counts.
pub open spec fn is_ref_counted_tag(t: u8) -> bool {
    !(t == NULL || t == NUMBER || t == MOB_TYPEPATH || t == OBJ_TYPEPATH || t == TURF_TYPEPATH
        || t == AREA_TYPEPATH || t == DATUM_TYPEPATH || t == TURF)
}

/// Tags whose values this library counts references of: the reference-counted
/// ones but the eternal `world`.
pub open spec fn should_ref_count_tag(t: u8) -> bool {
    is_ref_counted_tag(t) && t != WORLD
}

/// The decimal digit of `d`.
pub open spec fn digit_char(d: nat) -> char {
    if d == 0 { '0' } else if d == 1 { '1' } else if d == 2 { '2' } else if d == 3 { '3' }
    else if d == 4 { '4' } else if d == 5 { '5' } else if d == 6 { '6' } else if d == 7 { '7' }
    else if d == 8 { '8' } else { '9' }
}

/// `n` written in decimal, without leading zeros.
pub open spec fn decimal(n: nat) -> Seq<char>
    decreases n,
{
    if n < 10 {
        seq![digit_char(n)]
    } else {
        decimal(n / 10).push(digit_char(n % 10))
    }
}

/// The readable name of a tag.
pub open spec fn tag_name(t: u8) -> Seq<char> {
    match t {
        0x00u8 => "null"@,
        0x01u8 => "turf"@,
        0x02u8 => "obj"@,
        0x03u8 => "mob"@,
        0x04u8 => "area"@,
        0x05u8 => "client"@,
        0x06u8 => "string"@,
        0x08u8 => "mob typepath"@,
        0x09u8 => "obj typepath"@,
        0x0Au8 => "turf typepath"@,
        0x0Bu8 => "area typepath"@,
        0x0Cu8 => "resource"@,
        0x0Du8 => "image"@,
        0x0Eu8 => "world"@,
        0x0Fu8 => "list"@,
        0x10u8 => "arg list"@,
        0x17u8 => "mob contents"@,
        0x18u8 => "turf contents"@,
        0x19u8 => "area contents"@,
        0x1Au8 => "world contents"@,
        0x1Cu8 => "obj contents"@,
        0x20u8 => "datum typepath"@,
        0x21u8 => "datum"@,
        0x23u8 => "savefile"@,
        0x26u8 => "proc reference"@,
        0x27u8 => "file"@,
        0x2Au8 => "number"@,
        0x2Cu8 => "mob vars"@,
        0x2Du8 => "obj vars"@,
        0x2Eu8 => "turf vars"@,
        0x2Fu8 => "area vars"@,
        0x30u8 => "client vars"@,
        0x31u8 => "vars"@,
        0x32u8 => "mob overlays"@,
        0x33u8 => "mob underlays"@,
        0x34u8 => "obj overlays"@,
        0x35u8 => "obj underlays"@,
        0x36u8 => "turf overlays"@,
        0x37u8 => "turf underlays"@,
        0x38u8 => "area overlays"@,
        0x39u8 => "area underlays"@,
        0x3Au8 => "appearance"@,
        0x3Cu8 => "pointer"@,
        0x40u8 => "image overlays"@,
        0x41u8 => "image underlays"@,
        0x42u8 => "image vars"@,
        0x45u8 => "binary object"@,
        0x4Bu8 => "turf vis_contents"@,
        0x4Cu8 => "obj vis_contents"@,
        0x4Du8 => "mob vis_contents"@,
        0x4Eu8 => "turf vis_locs"@,
        0x4Fu8 => "obj vis_locs"@,
        0x50u8 => "mob vis_locs"@,
        0x51u8 => "world vars"@,
        0x52u8 => "global vars"@,
        0x53u8 => "filter(s)"@,
        0x54u8 => "image vis_contents"@,
        0x55u8 => "alist"@,
        0x56u8 => "pixloc"@,
        0x57u8 => "vector"@,
        0x58u8 => "callee"@,        _ => "unknown ("@ + decimal(t as nat) + ")"@,
    }
}

fn unknown_type_name(tag: u8) -> (r: String)
    ensures
        r@ == "unknown ("@ + decimal(tag as nat) + ")"@,
{
    let digits = decimal_text(tag as usize);
    let head = concat_text("unknown (", digits.as_str());
    concat_text(head.as_str(), ")")
}

impl ByondValueType {
    #[inline]
    pub fn can_index_at_all(&self) -> (r: bool)
        ensures
            r == is_indexable_tag(self.0),
    {
        let t = self.0;
        self.can_index_by_number() || is_datum(t) || t == CLIENT || t == APPEARANCE || t == WORLD
    }

    #[inline]
    pub fn can_index_by_number(&self) -> (r: bool)
        ensures
            r == is_list_tag(self.0),
    {
        let t = self.0;
        (t == MOB_CONTENTS || t == TURF_CONTENTS || t == AREA_CONTENTS || t == WORLD_CONTENTS
            || t == OBJ_CONTENTS) || is_vars(t) || (t == MOB_OVERLAYS || t == MOB_UNDERLAYS
            || t == OBJ_OVERLAYS || t == OBJ_UNDERLAYS || t == TURF_OVERLAYS || t
            == TURF_UNDERLAYS || t == AREA_OVERLAYS || t == AREA_UNDERLAYS || t == IMAGE_OVERLAYS
            || t == IMAGE_UNDERLAYS) || (t == TURF_VIS_CONTENTS || t == OBJ_VIS_CONTENTS || t
            == MOB_VIS_CONTENTS || t == IMAGE_VIS_CONTENTS) || (t == TURF_VIS_LOCS || t
            == OBJ_VIS_LOCS || t == MOB_VIS_LOCS) || t == LIST || t == ALIST || t == ARG_LIST
    }

    #[inline]
    pub fn can_index_by_string(&self) -> (r: bool)
        ensures
            r == is_string_indexable_tag(self.0),
    {
        let t = self.0;
        is_vars(t) || is_datum(t) || t == CLIENT || t == LIST || t == ALIST || t == ARG_LIST || t
            == APPEARANCE || t == WORLD
    }

    #[inline]
    pub fn can_index_by_anything(&self) -> (r: bool)
        ensures
            r == (self.0 == LIST || self.0 == ALIST),
    {
        self.0 == LIST || self.0 == ALIST
    }

    /// Whether procs can be called on values of this type.
    pub fn has_procs(&self) -> (r: bool)
        ensures
            r == is_proc_having_tag(self.0),
    {
        self.can_index_by_number() || is_datum(self.0) || self.0 == CLIENT
    }

    /// Whether the user can define procs on values of this type.
    pub fn can_define_procs(&self) -> (r: bool)
        ensures
            r == is_proc_definable_tag(self.0),
    {
        is_datum(self.0) || self.0 == CLIENT
    }

    /// Whether this type is a typepath.
    pub fn is_typepath(&self) -> (r: bool)
        ensures
            r == is_path_tag(self.0),
    {
        let t = self.0;
        t == MOB_TYPEPATH || t == OBJ_TYPEPATH || t == TURF_TYPEPATH || t == AREA_TYPEPATH || t
            == DATUM_TYPEPATH
    }

    /// Returns a simple string representation of the type.
    pub fn name(&self) -> (r: String)
        ensures
            r@ == tag_name(self.0),
    {
        match self.0 {
            0x00u8 => "null".to_owned(),
            0x01u8 => "turf".to_owned(),
            0x02u8 => "obj".to_owned(),
            0x03u8 => "mob".to_owned(),
            0x04u8 => "area".to_owned(),
            0x05u8 => "client".to_owned(),
            0x06u8 => "string".to_owned(),
            0x08u8 => "mob typepath".to_owned(),
            0x09u8 => "obj typepath".to_owned(),
            0x0Au8 => "turf typepath".to_owned(),
            0x0Bu8 => "area typepath".to_owned(),
            0x0Cu8 => "resource".to_owned(),
            0x0Du8 => "image".to_owned(),
            0x0Eu8 => "world".to_owned(),
            0x0Fu8 => "list".to_owned(),
            0x10u8 => "arg list".to_owned(),
            0x17u8 => "mob contents".to_owned(),
            0x18u8 => "turf contents".to_owned(),
            0x19u8 => "area contents".to_owned(),
            0x1Au8 => "world contents".to_owned(),
            0x1Cu8 => "obj contents".to_owned(),
            0x20u8 => "datum typepath".to_owned(),
            0x21u8 => "datum".to_owned(),
            0x23u8 => "savefile".to_owned(),
            0x26u8 => "proc reference".to_owned(),
            0x27u8 => "file".to_owned(),
            0x2Au8 => "number".to_owned(),
            0x2Cu8 => "mob vars".to_owned(),
            0x2Du8 => "obj vars".to_owned(),
            0x2Eu8 => "turf vars".to_owned(),
            0x2Fu8 => "area vars".to_owned(),
            0x30u8 => "client vars".to_owned(),
            0x31u8 => "vars".to_owned(),
            0x32u8 => "mob overlays".to_owned(),
            0x33u8 => "mob underlays".to_owned(),
            0x34u8 => "obj overlays".to_owned(),
            0x35u8 => "obj underlays".to_owned(),
            0x36u8 => "turf overlays".to_owned(),
            0x37u8 => "turf underlays".to_owned(),
            0x38u8 => "area overlays".to_owned(),
            0x39u8 => "area underlays".to_owned(),
            0x3Au8 => "appearance".to_owned(),
            0x3Cu8 => "pointer".to_owned(),
            0x40u8 => "image overlays".to_owned(),
            0x41u8 => "image underlays".to_owned(),
            0x42u8 => "image vars".to_owned(),
            0x45u8 => "binary object".to_owned(),
            0x4Bu8 => "turf vis_contents".to_owned(),
            0x4Cu8 => "obj vis_contents".to_owned(),
            0x4Du8 => "mob vis_contents".to_owned(),
            0x4Eu8 => "turf vis_locs".to_owned(),
            0x4Fu8 => "obj vis_locs".to_owned(),
            0x50u8 => "mob vis_locs".to_owned(),
            0x51u8 => "world vars".to_owned(),
            0x52u8 => "global vars".to_owned(),
            0x53u8 => "filter(s)".to_owned(),
            0x54u8 => "image vis_contents".to_owned(),
            0x55u8 => "alist".to_owned(),
            0x56u8 => "pixloc".to_owned(),
            0x57u8 => "vector".to_owned(),
            0x58u8 => "callee".to_owned(),            other => unknown_type_name(other),
        }
    }

    /// Returns if this type is reference counted or not.
    ///
    /// Use [`should_ref_count`](Self::should_ref_count) to decide whether to
    /// count references of a value.
    #[inline]
    pub fn is_ref_counted(&self) -> (r: bool)
        ensures
            r == is_ref_counted_tag(self.0),
    {
        let t = self.0;
        !(t == NULL || t == NUMBER || t == MOB_TYPEPATH || t == OBJ_TYPEPATH || t == TURF_TYPEPATH
            || t == AREA_TYPEPATH || t == DATUM_TYPEPATH || t == TURF)
    }

    /// Returns if references of this type should be counted: a
    /// reference-counted type other than `world`, which the host never frees.
    #[inline]
    pub fn should_ref_count(self) -> (r: bool)
        ensures
            r == should_ref_count_tag(self.0),
    {
        self.is_ref_counted() && self.0 != WORLD
    }
}

fn is_datum(t: u8) -> (r: bool)
    ensures
        r == is_datum_tag(t),
{
    t == TURF || t == OBJ || t == MOB || t == AREA || t == IMAGE || t == DATUM
}

fn is_vars(t: u8) -> (r: bool)
    ensures
        r == is_vars_tag(t),
{
    t == MOB_VARS || t == OBJ_VARS || t == TURF_VARS || t == AREA_VARS || t == CLIENT_VARS || t
        == VARS || t == IMAGE_VARS || t == WORLD_VARS || t == GLOBAL_VARS
}

} // verus!
