use std::collections::hash_map::DefaultHasher;
use std::collections::{BTreeSet, HashMap, HashSet};
use std::hash::{Hash, Hasher};

use matrix_ids::delimited::{OwnedRoomId, RoomId, RoomIdKind};
use matrix_ids::shared::{ArcId, BoxedId, RcId};

const SHORT: &str = "!abc:example.org";
const LONG: &str = "!0123456789abcdefghijklmnopqrstuvwxyz:long-server-name.example.org:8448";

fn hash_of<T: Hash>(value: &T) -> u64 {
    let mut hasher = DefaultHasher::new();
    value.hash(&mut hasher);
    hasher.finish()
}

#[test]
fn every_conversion_keeps_the_text() {
    for text in [SHORT, LONG] {
        let view = RoomId::try_from_str(text).unwrap();
        assert_eq!(view.as_bytes(), text.as_bytes());
        assert_eq!(view.to_owned().as_str(), text);
        assert_eq!(view.to_boxed().as_str(), text);
        assert_eq!(view.to_rc().as_str(), text);
        assert_eq!(view.to_arc().as_str(), text);
        assert_eq!(view.to_text(), text);

        let owned = view.to_owned();
        assert_eq!(owned.as_id().as_str(), text);
        assert_eq!(owned.as_bytes(), text.as_bytes());
        assert_eq!(owned.to_text(), text);
        assert_eq!(owned.clone().into_string(), text);
        assert_eq!(owned.clone().into_boxed().as_str(), text);
        assert_eq!(owned.clone().into_arc().as_str(), text);

        let boxed = view.to_boxed();
        assert_eq!(boxed.as_id().as_str(), text);
        assert_eq!(boxed.as_bytes(), text.as_bytes());
        assert_eq!(boxed.clone().into_owned().as_str(), text);
        assert_eq!(boxed.clone().into_string(), text);
        assert_eq!(&*boxed.into_box(), text);

        let rc = view.to_rc();
        assert_eq!(rc.as_id().as_str(), text);
        assert_eq!(rc.as_bytes(), text.as_bytes());
        assert_eq!(rc.clone().as_str(), text);

        let arc = view.to_arc();
        assert_eq!(arc.as_id().as_str(), text);
        assert_eq!(arc.as_bytes(), text.as_bytes());
        assert_eq!(arc.clone().as_str(), text);
        assert_eq!(OwnedRoomId::from_arc(&arc).as_str(), text);
    }
}

#[test]
fn round_trip_through_each_shared_form() {
    for text in [SHORT, LONG] {
        let handle = RoomId::parse(text).unwrap();
        let through_arc = OwnedRoomId::from_arc(&handle.clone().into_arc());
        assert_eq!(through_arc, handle);
        assert_eq!(through_arc.as_str(), handle.as_str());
        let through_rc = handle.as_id().to_rc().as_id().to_owned();
        assert_eq!(through_rc, handle);
        let through_box = handle.clone().into_boxed().into_owned();
        assert_eq!(through_box, handle);
        let through_string = OwnedRoomId::from_string(handle.clone().into_string());
        assert_eq!(through_string, handle);
    }
}

#[test]
fn wrapped_buffers_are_taken_as_they_are() {
    let boxed = BoxedId::<RoomIdKind>::from_box(Box::from(SHORT));
    assert_eq!(boxed.as_str(), SHORT);
    let rc = RcId::<RoomIdKind>::from_rc(std::rc::Rc::from(SHORT));
    assert_eq!(rc.as_str(), SHORT);
    let shared: std::sync::Arc<str> = std::sync::Arc::from(LONG);
    let arc = ArcId::<RoomIdKind>::from_arc(shared.clone());
    assert_eq!(arc.as_str(), LONG);
    assert_eq!(std::sync::Arc::strong_count(&shared), 2);
    let again = arc.clone();
    assert_eq!(std::sync::Arc::strong_count(&shared), 3);
    drop(arc);
    drop(again);
    assert_eq!(std::sync::Arc::strong_count(&shared), 1);
}

#[test]
fn storage_mode_changes_no_behaviour() {
    let inline = RoomId::parse(SHORT).unwrap();
    let mut roomy = String::with_capacity(256);
    roomy.push_str(SHORT);
    let on_heap = OwnedRoomId::from_string(roomy);
    assert_eq!(inline, on_heap);
    assert_eq!(inline.partial_cmp(&on_heap), Some(std::cmp::Ordering::Equal));
    assert_eq!(inline.cmp(&on_heap), std::cmp::Ordering::Equal);
    assert_eq!(hash_of(&inline), hash_of(&on_heap));
    assert_eq!(inline.to_text(), on_heap.to_text());
    assert_eq!(inline.as_bytes(), on_heap.as_bytes());

    let short = RoomId::parse(SHORT).unwrap();
    let long = RoomId::parse(LONG).unwrap();
    assert!(SHORT.len() <= 32 && LONG.len() > 32);
    assert_ne!(short, long);
    assert_eq!(short.partial_cmp(&long), SHORT.partial_cmp(LONG));
    assert_eq!(long.partial_cmp(&short), LONG.partial_cmp(SHORT));
    assert_eq!(short.cmp(&long), SHORT.cmp(LONG));
    assert_eq!(hash_of(&short), hash_of(&SHORT));
    assert_eq!(hash_of(&long), hash_of(&LONG));
    assert_eq!(long.clone(), long);
    assert_eq!(long.to_text(), LONG);
}

#[test]
fn forms_with_the_same_text_are_equal() {
    for text in [SHORT, LONG] {
        let view = RoomId::try_from_str(text).unwrap();
        let owned = view.to_owned();
        let boxed = view.to_boxed();
        let rc = view.to_rc();
        let arc = view.to_arc();
        assert!(owned == view && view == owned);
        assert!(owned == arc && arc == owned);
        assert!(view == arc && arc == view);
        assert!(owned == boxed && boxed == owned);
        assert!(boxed == view && view == boxed);
        assert!(rc == arc && arc == rc);
        assert!(owned == *text && *text == owned);
        assert!(owned == text.to_owned() && text.to_owned() == owned);
        assert!(owned == text && text == owned);
        assert!(view == text && text == view);
        assert!(boxed == text && text == boxed);
        assert!(boxed == text.to_owned() && text.to_owned() == boxed);
        assert!(view == text.to_owned() && text.to_owned() == view);
        assert!(*text == view && *text == boxed);
        assert!(view == *text && boxed == *text && rc == *text && arc == *text);
        assert!(owned.eq_str(text) && view.eq_str(text) && boxed.eq_str(text));
        assert!(rc.eq_str(text) && arc.eq_str(text));

        let other = RoomId::try_from_str("!other:example.org").unwrap();
        assert!(owned != other && other != arc && boxed != other);
        assert!("!other:example.org" != owned && "!other:example.org" != view);
        assert!("!other:example.org" != boxed && *"!other:example.org" != owned);
        assert!(!owned.eq_str("!other:example.org"));
    }
}

#[test]
fn forms_are_interchangeable_in_hashed_containers() {
    let view = RoomId::try_from_str(LONG).unwrap();
    let owned = view.to_owned();
    let arc = view.to_arc();
    assert_eq!(hash_of(&owned), hash_of(&view));
    assert_eq!(hash_of(&owned), hash_of(&arc));
    assert_eq!(hash_of(&owned), hash_of(&view.to_boxed()));
    assert_eq!(hash_of(&owned), hash_of(&view.to_rc()));

    let mut set: HashSet<OwnedRoomId> = HashSet::new();
    set.insert(owned.clone());
    assert!(set.contains(view.as_str()));
    assert!(set.contains(arc.as_str()));
    assert!(!set.contains(SHORT));
    assert!(!set.insert(arc.as_id().to_owned()));

    let mut by_arc: HashMap<ArcId<RoomIdKind>, u32> = HashMap::new();
    by_arc.insert(arc, 7);
    assert_eq!(by_arc.get(owned.as_str()), Some(&7));
    assert_eq!(by_arc.get(view.as_str()), Some(&7));
}

#[test]
fn order_is_the_order_of_the_text() {
    let texts = ["!b:x", "!a:x", "!a:x:1", "!ab:x", "!a:y", "!\u{e9}:x", "!B:x"];
    let mut sorted_text: Vec<&str> = texts.to_vec();
    sorted_text.sort();
    let set: BTreeSet<OwnedRoomId> = texts.iter().map(|t| RoomId::parse(t).unwrap()).collect();
    let sorted_ids: Vec<String> = set.iter().map(|id| id.to_text()).collect();
    assert_eq!(sorted_ids, sorted_text);
    for a in texts {
        for b in texts {
            let x = RoomId::parse(a).unwrap();
            let y = RoomId::parse(b).unwrap();
            assert_eq!(x.partial_cmp(&y), a.partial_cmp(b));
            assert_eq!(x.cmp(&y), a.cmp(b));
            assert_eq!(x.as_id().partial_cmp(&y.as_id()), a.partial_cmp(b));
            assert_eq!(x.as_id().to_arc().partial_cmp(&y.as_id().to_arc()), a.partial_cmp(b));
            assert_eq!(x < y, a < b);
        }
    }
}

#[test]
fn holders_dropped_in_any_order_free_the_buffer_once() {
    let buffer: std::sync::Arc<str> = std::sync::Arc::from(LONG);
    let watcher = std::sync::Arc::downgrade(&buffer);
    let handle = ArcId::<RoomIdKind>::from_arc(buffer);
    assert_eq!(watcher.strong_count(), 1);

    let mut holders: Vec<ArcId<RoomIdKind>> = (0..100).map(|_| handle.clone()).collect();
    assert_eq!(watcher.strong_count(), 101);
    drop(handle);
    let mut step = 0;
    while !holders.is_empty() {
        step += 7;
        let holder = holders.swap_remove(step % holders.len());
        assert_eq!(holder.as_str(), LONG);
        assert_eq!(watcher.strong_count(), holders.len() + 1);
        assert!(watcher.upgrade().is_some());
        drop(holder);
    }
    assert_eq!(watcher.strong_count(), 0);
    assert!(watcher.upgrade().is_none());
}

#[test]
fn every_form_reaches_every_other() {
    for text in [SHORT, LONG] {
        let view = RoomId::try_from_str(text).unwrap();
        let owned = OwnedRoomId::copy_of(&view);
        let boxed = BoxedId::<RoomIdKind>::copy_of(&owned);
        let rc = RcId::<RoomIdKind>::copy_of(&boxed);
        let arc = ArcId::<RoomIdKind>::copy_of(&rc);
        let back = OwnedRoomId::copy_of(&arc);
        assert_eq!(back.as_str(), text);
        assert_eq!(BoxedId::<RoomIdKind>::copy_of(&arc).as_str(), text);
        assert_eq!(BoxedId::<RoomIdKind>::copy_of(&rc).as_str(), text);
        assert_eq!(RcId::<RoomIdKind>::copy_of(&arc).as_str(), text);
        assert_eq!(RcId::<RoomIdKind>::copy_of(&owned).as_str(), text);
        assert_eq!(ArcId::<RoomIdKind>::copy_of(&boxed).as_str(), text);
        assert_eq!(ArcId::<RoomIdKind>::copy_of(&owned).as_str(), text);
        assert_eq!(OwnedRoomId::copy_of(&rc).as_str(), text);
        assert_eq!(OwnedRoomId::copy_of(&boxed).as_str(), text);
        assert_eq!(owned.as_id(), boxed.as_id());
        assert_eq!(rc.as_id(), arc.as_id());
    }
}
