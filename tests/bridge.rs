use meowtonin::display::display_value;
use meowtonin::panic::{ModuleLookup, ModuleNameCache};
use meowtonin::buffer::{take_written, BufferRequest, BufferStep};
use meowtonin::error::map_byond_error;
use meowtonin::panic::{
    crash_reason, filter_frames, is_relevant_module, is_relevant_symbol, LastPanic, PanicLocation,
    RawFrame,
};
use meowtonin::pixloc::ByondPixLoc;
use meowtonin::refcount::{can_use_temporary, Ownership, RefAction};
use meowtonin::serde_value::ByondSerde;
use meowtonin::string::{buffer_to_string, find_nul, string_payload};
use meowtonin::strid::{id_from_raw, str_id_request, StrIdLookup, StringIdCache};
use meowtonin::sync::{run_sync_callback, MainThread, ThreadSyncDepth};
use meowtonin::sys::{s1c, s2c, s4c, s8c, u1c, u2c, u4c, u8c, NONE};
use meowtonin::value::{host_result, test_byondvalue_clear_is_zero};
use meowtonin::value_type;
use meowtonin::{ByondError, ByondValue, ByondValueType, ByondVersion, ByondXYZ, RcByondValue};

#[test]
fn ensure_typedefs_match() {
    assert_eq!(std::mem::size_of::<u1c>(), std::mem::size_of::<u8>(), "u1c != u8");
    assert_eq!(std::mem::size_of::<s1c>(), std::mem::size_of::<i8>(), "s1c != i8");

    assert_eq!(std::mem::size_of::<u2c>(), std::mem::size_of::<u16>(), "u2c != u16");
    assert_eq!(std::mem::size_of::<s2c>(), std::mem::size_of::<i16>(), "s2c != i16");

    assert_eq!(std::mem::size_of::<u4c>(), std::mem::size_of::<u32>(), "u4c != u32");
    assert_eq!(std::mem::size_of::<s4c>(), std::mem::size_of::<i32>(), "s4c != i32");

    assert_eq!(std::mem::size_of::<u8c>(), std::mem::size_of::<u64>(), "u8c != u64");
    assert_eq!(std::mem::size_of::<s8c>(), std::mem::size_of::<i64>(), "s8c != i64");
}

#[test]
fn null_value_bytes_are_zero() {
    let cleared = ByondValue::null();
    assert_eq!(cleared.to_bytes(), vec![0u8; 8]);
    let zeroed = ByondValue::from_bytes(&[0u8; 8]);
    assert_eq!(zeroed.to_bytes(), cleared.to_bytes());
    assert!(zeroed.is_null());
    assert!(ByondValue::default().is_null());
    assert!(test_byondvalue_clear_is_zero(&cleared.to_bytes()));
    assert!(test_byondvalue_clear_is_zero(&[0u8; 8]));
    assert!(!test_byondvalue_clear_is_zero(&[0, 0, 0, 1, 0, 0, 0, 0]));
    assert!(!test_byondvalue_clear_is_zero(&[0u8; 7]));
    assert!(!test_byondvalue_clear_is_zero(&[0u8; 16]));
}

#[test]
fn value_bytes_layout() {
    let v = ByondValue::new_ref_unchecked(ByondValueType(value_type::DATUM), 0x0403_0201);
    assert_eq!(v.to_bytes(), vec![0x21, 0, 0, 0, 1, 2, 3, 4]);
    let back = ByondValue::from_bytes(&v.to_bytes());
    assert_eq!(back.type_, value_type::DATUM);
    assert_eq!(back.data, 0x0403_0201);
}

#[test]
fn world_and_global() {
    let w = ByondValue::world();
    let g = ByondValue::global();
    assert_eq!(w.get_type(), ByondValueType(value_type::WORLD));
    assert_eq!(w.data, 0);
    assert_eq!(g.get_type(), ByondValueType(value_type::WORLD));
    assert_eq!(g.data, 1);
    assert!(!w.get_type().should_ref_count());
    assert!(w.get_type().is_ref_counted());
}

#[test]
fn number_accessor_checks_tag() {
    let n = ByondValue::new_num_bits(42.0f32.to_bits());
    assert!(n.is_number());
    assert_eq!(f32::from_bits(n.get_number_bits().unwrap()), 42.0);
    let s = ByondValue::new_ref_unchecked(ByondValueType(value_type::STRING), 3);
    assert!(s.is_string());
    match s.get_number_bits() {
        Err(ByondError::InvalidConversion { expected, got }) => {
            assert_eq!(expected, "number");
            assert_eq!(got, "string");
        }
        other => panic!("unexpected {other:?}"),
    }
}

#[test]
fn hash_key_ignores_null_payload() {
    assert_eq!(ByondValue::null().hash_key(), (0, None));
    let n = ByondValue::new_num_bits(7);
    assert_eq!(n.hash_key(), (value_type::NUMBER, Some(7)));
}

#[test]
fn type_names() {
    assert_eq!(ByondValueType(value_type::NULL).name(), "null");
    assert_eq!(ByondValueType(value_type::MOB_VIS_CONTENTS).name(), "mob vis_contents");
    assert_eq!(ByondValueType(value_type::FILTERS).name(), "filter(s)");
    assert_eq!(ByondValueType(0x07).name(), "unknown (7)");
    assert_eq!(ByondValueType(0xFF).name(), "unknown (255)");
}

#[test]
fn type_classification() {
    let list = ByondValueType(value_type::LIST);
    assert!(list.can_index_at_all() && list.can_index_by_number());
    assert!(list.can_index_by_string() && list.can_index_by_anything());
    let vars = ByondValueType(value_type::MOB_VARS);
    assert!(vars.can_index_by_number() && vars.can_index_by_string());
    assert!(!vars.can_index_by_anything());
    let appearance = ByondValueType(value_type::APPEARANCE);
    assert!(appearance.can_index_at_all() && !appearance.can_index_by_number());
    assert!(appearance.can_index_by_string() && !appearance.has_procs());
    let number = ByondValueType(value_type::NUMBER);
    assert!(!number.can_index_at_all() && !number.is_ref_counted());
    let turf = ByondValueType(value_type::TURF);
    assert!(!turf.is_ref_counted() && turf.can_define_procs());
    assert!(ByondValueType(value_type::OBJ_TYPEPATH).is_typepath());
    assert!(ByondValueType(value_type::DATUM).should_ref_count());
}

#[test]
fn refcount_persistent_off_main_thread() {
    let sync = ThreadSyncDepth::new();
    let datum = ByondValue::new_ref_unchecked(ByondValueType(value_type::DATUM), 9);
    let (rc, action) = RcByondValue::new(datum, false, &sync);
    assert_eq!(rc.ownership(), Ownership::Persistent);
    assert_eq!(action, RefAction::IncRef);

    // copy twice, then end all three copies: increments and decrements balance
    let mut increments = 1;
    let mut decrements = 0;
    let mut tally = |a: RefAction| match a {
        RefAction::IncRef => increments += 1,
        RefAction::DecRef => decrements += 1,
        RefAction::Nothing => {}
    };
    let (second, a) = rc.duplicate();
    tally(a);
    let (third, a) = second.duplicate();
    tally(a);
    assert_eq!(third.ownership(), Ownership::Persistent);
    assert_eq!(third.value().data, 9);
    tally(rc.release());
    tally(second.release());
    tally(third.release());
    assert_eq!(increments, 3);
    assert_eq!(increments, decrements);
}

#[test]
fn refcount_temporary_and_unmanaged() {
    let mut sync = ThreadSyncDepth::new();
    let datum = ByondValue::new_ref_unchecked(ByondValueType(value_type::DATUM), 9);
    let (rc, action) = RcByondValue::new(datum, true, &sync);
    assert_eq!(rc.ownership(), Ownership::Temporary);
    assert_eq!(action, RefAction::Nothing);
    let (copy, action) = rc.duplicate();
    assert_eq!(action, RefAction::Nothing);
    assert_eq!(copy.release(), RefAction::Nothing);
    assert_eq!(rc.release(), RefAction::Nothing);

    sync.enter();
    assert!(!can_use_temporary(true, &sync));
    let (rc, action) = RcByondValue::new(datum, true, &sync);
    assert_eq!(rc.ownership(), Ownership::Persistent);
    assert_eq!(action, RefAction::IncRef);
    sync.exit();

    let (num, action) = RcByondValue::new(ByondValue::new_num_bits(1), false, &sync);
    assert_eq!(num.ownership(), Ownership::Unmanaged);
    assert_eq!(action, RefAction::Nothing);
    let world = RcByondValue::new_from_persistent(ByondValue::world());
    assert_eq!(world.ownership(), Ownership::Unmanaged);
    let list = ByondValue::new_ref_unchecked(ByondValueType(value_type::LIST), 2);
    assert_eq!(RcByondValue::new_from_persistent(list).ownership(), Ownership::Persistent);
}

#[test]
fn cache_lookup_is_idempotent() {
    let mut cache = StringIdCache::new();
    let (hash, first) = cache.lookup("health");
    assert_eq!(first, StrIdLookup::Miss);
    assert_eq!(cache.record(hash, Some(17)), Some(17));
    let (hash2, second) = cache.lookup("health");
    assert_eq!(hash2, hash);
    assert_eq!(second, StrIdLookup::Cached(Some(17)));
    // an entry already there wins over a later answer
    assert_eq!(cache.record(hash, Some(99)), Some(17));
    cache.clear();
    assert_eq!(cache.probe(hash), StrIdLookup::Miss);
}

#[test]
fn cache_records_failures() {
    let mut cache = StringIdCache::new();
    let (hash, _) = cache.lookup("no such name");
    assert_eq!(cache.record(hash, Some(NONE as u32)), None);
    assert_eq!(cache.probe(hash), StrIdLookup::Cached(None));
    let (nul_hash, _) = cache.lookup("a\0b");
    assert_eq!(cache.record(nul_hash, None), None);
    assert_eq!(cache.probe(nul_hash), StrIdLookup::Cached(None));
}

#[test]
fn string_hash_is_stable_within_process() {
    let cache = StringIdCache::new();
    assert_eq!(cache.lookup("health").0, cache.lookup("health").0);
    assert_ne!(cache.lookup("health").0, cache.lookup("name").0);
}

#[test]
fn string_id_requests() {
    assert_eq!(str_id_request("abc"), Some(vec![b'a', b'b', b'c', 0]));
    assert_eq!(str_id_request("a\0b"), None);
    assert_eq!(id_from_raw(0xFFFF), None);
    assert_eq!(id_from_raw(5), Some(5));
}

#[test]
fn buffer_retry_fetches_full_payload() {
    let payload: Vec<u8> = b"a string longer than four".to_vec();
    let mut request = BufferRequest::new(Some(4));
    assert_eq!(request.capacity, 4);
    let fits = payload.len() <= request.capacity;
    let step = request.answer(fits, payload.len());
    assert_eq!(step, BufferStep::Retry { capacity: payload.len() });
    let fits = payload.len() <= request.capacity;
    let step = request.answer(fits, payload.len());
    assert_eq!(step, BufferStep::Done { len: payload.len() });
    let mut buffer = payload.clone();
    buffer.extend_from_slice(&[0xAA; 3]);
    assert_eq!(take_written(&buffer, payload.len()), payload);
}

#[test]
fn buffer_second_failure_is_an_error() {
    let mut request = BufferRequest::new(None);
    assert_eq!(request.capacity, 0);
    assert_eq!(request.answer(false, 8), BufferStep::Retry { capacity: 8 });
    assert_eq!(request.answer(false, 16), BufferStep::Failed);
    let mut fits_at_once = BufferRequest::new(Some(32));
    assert_eq!(fits_at_once.answer(true, 5), BufferStep::Done { len: 5 });
    let mut overclaimed = BufferRequest::new(Some(4));
    assert_eq!(overclaimed.answer(true, 5), BufferStep::Failed);
}

#[test]
fn sync_depth_nested_and_sequential() {
    let mut sync = ThreadSyncDepth::new();
    assert!(!sync.is_in_thread_sync());
    sync.enter();
    sync.enter();
    assert_eq!(sync.depth, 2);
    sync.exit();
    sync.exit();
    sync.enter();
    assert!(sync.is_in_thread_sync());
    sync.exit();
    assert_eq!(sync.depth, 0);
    let v = run_sync_callback(&mut sync, |inside: &ThreadSyncDepth| {
        assert!(inside.is_in_thread_sync());
        ByondValue::new_num_bits(inside.depth as u32)
    });
    assert_eq!(v.data, 1);
    assert_eq!(sync.depth, 0);
    sync.enter();
    let v = run_sync_callback(&mut sync, |inside: &ThreadSyncDepth| {
        ByondValue::new_num_bits(inside.depth as u32)
    });
    assert_eq!(v.data, 2);
    assert_eq!(sync.depth, 1);
    assert!(sync.checked_exit());
    assert!(!sync.checked_exit());
    assert_eq!(sync.depth, 0);
}

#[test]
fn main_thread_is_first_asker() {
    let mut main = MainThread::new();
    assert!(main.is_main_thread(7));
    assert!(main.is_main_thread(7));
    assert!(!main.is_main_thread(8));
    assert_eq!(main.id, Some(7));
}

#[test]
fn read_numeric_property_by_name() {
    let mut cache = StringIdCache::new();
    let reference = ByondValue::new_ref_unchecked(ByondValueType(value_type::DATUM), 12);
    reference.require_ref().unwrap();
    let (hash, step) = cache.lookup("health");
    assert_eq!(step, StrIdLookup::Miss);
    let name_id = cache.record(hash, Some(40));
    let id = reference.var_target(name_id).unwrap();
    assert_eq!(id, 40);
    // the host answers the read with the number 42
    let read = host_result(true, ByondValue::new_num_bits(42.0f32.to_bits()), None).unwrap();
    assert_eq!(read.get_type(), ByondValueType(value_type::NUMBER));
    assert_eq!(f32::from_bits(read.get_number_bits().unwrap()), 42.0);

    let number = ByondValue::new_num_bits(42.0f32.to_bits());
    assert!(matches!(number.require_ref(), Err(ByondError::NotReferenceable)));
    assert!(matches!(number.var_target(Some(40)), Err(ByondError::NotReferenceable)));
    assert!(matches!(reference.var_target(None), Err(ByondError::InvalidVariable)));
    assert!(matches!(reference.proc_target(None), Err(ByondError::InvalidProc)));
    assert!(matches!(number.proc_target(Some(1)), Err(ByondError::NotReferenceable)));
}

#[test]
fn pointer_access_needs_pointer() {
    let p = ByondValue::new_ref_unchecked(ByondValueType(value_type::POINTER), 1);
    assert!(p.require_pointer().is_ok());
    let d = ByondValue::new_ref_unchecked(ByondValueType(value_type::DATUM), 1);
    assert!(matches!(d.require_pointer(), Err(ByondError::NotReferenceable)));
}

#[test]
fn host_errors() {
    assert!(map_byond_error(true, None).is_ok());
    assert!(matches!(map_byond_error(false, None), Err(ByondError::UnknownByondError)));
    match host_result(false, ByondValue::null(), Some(b"bad ref".to_vec())) {
        Err(ByondError::ByondError(e)) => assert_eq!(e.0, b"bad ref".to_vec()),
        other => panic!("unexpected {other:?}"),
    }
}

#[test]
fn string_round_trip() {
    let payload = string_payload("hello".as_bytes());
    assert_eq!(payload, b"hello\0".to_vec());
    assert_eq!(buffer_to_string(&payload, false).unwrap(), "hello");
    assert_eq!(buffer_to_string(&payload, true).unwrap(), "hello");
    let unicode = string_payload("héllo ✓".as_bytes());
    assert_eq!(buffer_to_string(&unicode, false).unwrap(), "héllo ✓");
}

#[test]
fn string_invalid_utf8_strict_and_lossy() {
    let bad = [b'a', 0xFF, b'b', 0];
    assert!(matches!(buffer_to_string(&bad, false), Err(ByondError::NonUtf8String)));
    assert_eq!(buffer_to_string(&bad, true).unwrap(), "a\u{FFFD}b");
}

#[test]
fn string_needs_terminator() {
    assert!(matches!(buffer_to_string(b"abc", false), Err(ByondError::NonUtf8String)));
    assert!(matches!(buffer_to_string(b"", true), Err(ByondError::NonUtf8String)));
    assert_eq!(buffer_to_string(b"ab\0cd\0", false).unwrap(), "ab");
    assert_eq!(find_nul(b"ab\0cd\0"), Some(2));
    assert_eq!(find_nul(b"abc"), None);
}

#[test]
fn xyz_block_sizes() {
    let a = ByondXYZ::new(1, 1, 1);
    let b = ByondXYZ::new(3, 5, 1);
    assert_eq!(a.block_size(&b), (3, 5));
    assert_eq!(b.block_size(&a), (3, 5));
    assert_eq!(a.total_block_size(&b), 15);
    let far = ByondXYZ::new(1000, 1000, 1);
    assert_eq!(a.total_block_size(&far), u16::MAX);
    assert_eq!((a.x(), a.y(), a.z()), (1, 1, 1));
}

#[test]
fn xyz_saturating_arithmetic() {
    let a = ByondXYZ::new(i16::MAX, 5, -3);
    let b = ByondXYZ::new(10, 5, i16::MIN);
    let s = a.add(b);
    assert_eq!((s.x, s.y, s.z), (i16::MAX, 10, i16::MIN));
    let d = a.sub(b);
    assert_eq!((d.x, d.y, d.z), (i16::MAX - 10, 0, 32765));
    let mut m = ByondXYZ::new(1, 2, 3);
    m.add_assign(ByondXYZ::new(1, 1, 1));
    m.sub_assign(ByondXYZ::new(0, 3, 0));
    assert_eq!((m.x, m.y, m.z), (2, 0, 4));
    let mut j = ByondXYZ::new(1, 2, 3);
    j.junk = 9;
    assert!(j == ByondXYZ::new(1, 2, 3));
    assert!(ByondXYZ::default() == ByondXYZ::new(0, 0, 0));
}

#[test]
fn pixloc_fields() {
    let p = ByondPixLoc::new(1.5f32.to_bits(), 2.0f32.to_bits(), 3);
    assert_eq!(f32::from_bits(p.x_bits()), 1.5);
    assert_eq!(f32::from_bits(p.y_bits()), 2.0);
    assert_eq!(p.z(), 3);
    let z = ByondPixLoc::default();
    assert_eq!((z.x_bits, z.y_bits, z.z), (0, 0, 0));
}

#[test]
fn version_order() {
    let old = ByondVersion::new(515, 1640);
    let new = ByondVersion::new(516, 1600);
    assert!(new.is_at_least(&old));
    assert!(!old.is_at_least(&new));
    assert!(old.is_at_least(&ByondVersion::new(515, 1640)));
    assert!(old < new);
}

#[test]
fn serde_wrapper() {
    let w = ByondSerde::new(5u32);
    assert_eq!(*w.inner(), 5);
    assert_eq!(w.into_inner(), 5);
}

fn frame(name: Option<&str>, file: Option<&str>, module: Option<&str>) -> RawFrame {
    RawFrame {
        name: name.map(str::to_owned),
        file: file.map(str::to_owned),
        line: Some(1),
        address: None,
        module: module.map(str::to_owned),
    }
}

#[test]
fn frame_relevance() {
    let some = |s: &str| Some(s.to_owned());
    assert!(is_relevant_symbol(&some("my_addon::do_thing"), &some("src/lib.rs")));
    assert!(!is_relevant_symbol(&None, &some("src/lib.rs")));
    assert!(!is_relevant_symbol(&some("main"), &None));
    assert!(is_relevant_symbol(&some("mainly"), &None));
    assert!(!is_relevant_symbol(&some("std::panicking::begin_panic"), &None));
    assert!(!is_relevant_symbol(&some("foo"), &some("/rustc/abc/library/core/src/ops.rs")));
    assert!(!is_relevant_symbol(&some("foo"), &some(r"C:\rust\std\src\x.rs")));
    assert!(is_relevant_module(&None));
    assert!(is_relevant_module(&some("my_addon.dll")));
    assert!(!is_relevant_module(&some("BYONDCORE.DLL")));
    assert!(!is_relevant_module(&some("/usr/lib/libbyond.so")));
}

#[test]
fn panic_capture_and_take() {
    let frames = vec![
        frame(Some("std::rt::lang_start"), None, None),
        frame(Some("my_addon::work"), Some("src/work.rs"), Some("my_addon.so")),
        frame(Some("host_fn"), None, Some("byondcore.dll")),
        frame(None, Some("src/x.rs"), None),
    ];
    let kept = filter_frames(frames);
    assert_eq!(kept.len(), 1);
    assert_eq!(kept[0].name, "my_addon::work");

    let mut slot = LastPanic::new();
    slot.capture(None, None, vec![]);
    assert!(slot.take().is_none());
    slot.capture(
        Some("boom".to_owned()),
        Some(PanicLocation { file: "src/lib.rs".to_owned(), line: 3 }),
        vec![frame(Some("my_addon::work"), None, None)],
    );
    let p = slot.take().unwrap();
    assert_eq!(p.message.as_deref(), Some("boom"));
    assert_eq!(p.location.unwrap().line, 3);
    assert_eq!(p.backtrace.len(), 1);
    assert!(slot.take().is_none());
}

#[test]
fn crash_reason_is_terminated_and_truncated() {
    assert_eq!(crash_reason("bad"), b"bad\0".to_vec());
    assert_eq!(crash_reason("bad\0tail"), b"bad\0".to_vec());
    assert_eq!(crash_reason(""), vec![0]);
}

#[test]
fn list_helpers() {
    let mut cursor = meowtonin::list::ListCursor::new(2);
    assert_eq!(cursor.next_index(), Some(1));
    assert_eq!(cursor.next_index(), Some(2));
    assert_eq!(cursor.next_index(), None);
    assert_eq!(meowtonin::list::pop_plan(0), None);
    assert_eq!(meowtonin::list::pop_plan(3), Some((3, 2)));
    let a = ByondValue::new_num_bits(1);
    let b = ByondValue::null();
    let c = ByondValue::new_ref_unchecked(ByondValueType(value_type::DATUM), 4);
    let pairs = meowtonin::list::pair_entries(vec![a, b, c, a]);
    assert_eq!(pairs.len(), 2);
    assert_eq!(pairs[0][0].data, 1);
    assert!(pairs[0][1].is_null());
    assert_eq!(pairs[1][0].data, 4);
    let sync = ThreadSyncDepth::new();
    let adopted = meowtonin::list::adopt_values(&vec![a, c], false, &sync);
    assert_eq!(adopted[0].1, RefAction::Nothing);
    assert_eq!(adopted[1].1, RefAction::IncRef);
    assert_eq!(adopted[1].0.ownership(), Ownership::Persistent);
}

#[test]
fn display_text() {
    let fail_text = || -> meowtonin::ByondResult<String> { Err(ByondError::NotReferenceable) };
    let no_len = || -> meowtonin::ByondResult<usize> { Err(ByondError::NotAList) };
    assert_eq!(display_value(&ByondValue::null(), fail_text, no_len), "null");
    let s = ByondValue::new_ref_unchecked(ByondValueType(value_type::STRING), 1);
    assert_eq!(display_value(&s, || Ok("hi".to_owned()), no_len), "hi");
    assert_eq!(display_value(&s, fail_text, no_len), "???");
    let l = ByondValue::new_ref_unchecked(ByondValueType(value_type::LIST), 1);
    assert_eq!(display_value(&l, fail_text, || Ok(12)), "list[len=12]");
    assert_eq!(display_value(&l, fail_text, no_len), "list[len=0]");
    let al = ByondValue::new_ref_unchecked(ByondValueType(value_type::ALIST), 1);
    assert_eq!(display_value(&al, fail_text, || Ok(3)), "alist[len=3]");
    let m = ByondValue::new_ref_unchecked(ByondValueType(value_type::MOB), 1);
    assert_eq!(display_value(&m, || Ok("Bob".to_owned()), no_len), "<mob>: Bob");
    assert_eq!(display_value(&m, fail_text, no_len), "<mob>: ???");
}

#[test]
fn module_name_cache() {
    let mut cache = ModuleNameCache::new();
    assert!(matches!(cache.lookup(0), ModuleLookup::NoModule));
    assert!(matches!(cache.lookup(0x1000), ModuleLookup::Miss));
    assert_eq!(cache.record(0x1000, Some("addon.so".to_owned())), Some("addon.so".to_owned()));
    assert_eq!(cache.record(0x1000, None), Some("addon.so".to_owned()));
    match cache.lookup(0x1000) {
        ModuleLookup::Cached(Some(name)) => assert_eq!(name, "addon.so"),
        other => panic!("unexpected {other:?}"),
    }
}

#[test]
fn ref_id_zero_is_none() {
    assert_eq!(meowtonin::value::ref_id_from_raw(0), None);
    assert_eq!(meowtonin::value::ref_id_from_raw(9), Some(9));
}
