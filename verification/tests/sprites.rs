use nekoland::clips::ClipTable;
use nekoland::geometry::Edges;
use nekoland::pet::{Clip, Heading, Motion, Pet, Sprites, State, GRID_STRIDE};

const MAPPING: &str = r#"{ "idle": [[3, 3]], "E": [[3, 0], [3, 1]], "alert": [], "sleeping": [[2, 0], [2, 1]] }"#;

fn open() -> Edges {
    Edges { left: false, top: false, right: false, bottom: false }
}

#[test]
fn frames_fall_back_to_idle_then_origin() {
    let s = Sprites::from_json(MAPPING).unwrap();
    assert_eq!(s.frames("E"), &[(3, 0), (3, 1)]);
    assert_eq!(s.frames("alert"), &[(3, 3)]);
    assert_eq!(s.frames("NW"), &[(3, 3)]);
    assert_eq!(s.frames("idle"), &[(3, 3)]);
    let empty = Sprites::from_json(r#"{ "idle": [] }"#).unwrap();
    assert_eq!(empty.frames("idle"), &[(0, 0)]);
    assert_eq!(empty.frames("E"), &[(0, 0)]);
    let d = Sprites::default();
    assert_eq!(d.frames("sleeping"), &[(0, 0)]);
}

#[test]
fn from_json_rejects_other_texts() {
    assert!(Sprites::from_json("not json").is_err());
    assert!(Sprites::from_json(r#"{ "idle": [[1, 2, 3]] }"#).is_err());
    assert!(Sprites::from_json(r#"[1, 2]"#).is_err());
    assert!(Sprites::from_json(r#"{ "idle": [[1, 2]] }"#).is_ok());
}

#[test]
fn later_duplicate_clip_wins() {
    let s = Sprites::from_json(r#"{ "E": [[1, 1]], "E": [[5, 4]] }"#).unwrap();
    assert_eq!(s.frames("E"), &[(5, 4)]);
}

#[test]
fn pet_walks_then_settles() {
    let s = Sprites::from_json(MAPPING).unwrap();
    let mut p = Pet::new(s);
    assert_eq!(p.current_clip(), "idle");
    assert_eq!(p.current_frame(), (3 * GRID_STRIDE, 3 * GRID_STRIDE));
    p.update(Motion::Moved(Some(Heading::E)), State::Chase);
    assert_eq!(p.current_clip(), "E");
    assert_eq!(p.current_frame(), (99, 33));
    p.update(Motion::Moved(None), State::Chase);
    assert_eq!(p.current_clip(), "E");
    assert_eq!(p.current_frame(), (99, 0));
    let mut poses = Vec::new();
    for _ in 0..22 {
        p.update(Motion::Arrived(open()), State::Chase);
        poses.push(p.current_clip());
    }
    assert_eq!(&poses[0..2], &["alert", "alert"]);
    assert_eq!(&poses[2..7], &["scratchSelf"; 5]);
    assert_eq!(&poses[7..20], &["tired"; 13]);
    assert_eq!(&poses[20..22], &["sleeping", "sleeping"]);
}

#[test]
fn pet_scratches_walls_in_order() {
    let mut p = Pet::new(Sprites::default());
    let left_top = Edges { left: true, top: true, right: false, bottom: false };
    p.update(Motion::Arrived(left_top), State::Chase);
    assert_eq!(p.current_clip(), "scratchWallW");
    let top_right = Edges { left: false, top: true, right: true, bottom: false };
    p.update(Motion::Arrived(top_right), State::Chase);
    assert_eq!(p.current_clip(), "scratchWallN");
    let right = Edges { left: false, top: false, right: true, bottom: true };
    p.update(Motion::Arrived(right), State::Chase);
    assert_eq!(p.current_clip(), "scratchWallE");
    let bottom = Edges { left: false, top: false, right: false, bottom: true };
    p.update(Motion::Arrived(bottom), State::Chase);
    assert_eq!(p.current_clip(), "scratchWallS");
    assert_eq!(Clip::ScratchWallS.name(), "scratchWallS");
}

#[test]
fn set_sprites_restarts_clip() {
    let mut p = Pet::new(Sprites::from_json(MAPPING).unwrap());
    p.update(Motion::Moved(Some(Heading::E)), State::Chase);
    assert_eq!(p.current_frame(), (99, 33));
    p.set_sprites(Sprites::from_json(MAPPING).unwrap());
    assert_eq!(p.current_frame(), (99, 0));
}

#[test]
fn table_toggle_unbind_and_lookup() {
    let mut t = ClipTable::from_json(MAPPING).unwrap();
    assert_eq!(t.get("E").unwrap(), &vec![(3, 0), (3, 1)]);
    assert!(t.get("W").is_none());
    t.toggle("E", (3, 0));
    assert_eq!(t.get("E").unwrap(), &vec![(3, 1)]);
    t.toggle("E", (3, 0));
    assert_eq!(t.get("E").unwrap(), &vec![(3, 1), (3, 0)]);
    t.toggle("W", (7, 5));
    assert_eq!(t.get("W").unwrap(), &vec![(7, 5)]);
    let mut at = t.clips_at((3, 0));
    at.sort();
    assert_eq!(at, vec!["E".to_string(), "sleeping".to_string()].into_iter().filter(|n| n == "E").collect::<Vec<_>>());
    t.toggle("idle", (3, 1));
    let mut at = t.clips_at((3, 1));
    at.sort();
    assert_eq!(at, vec!["E".to_string(), "idle".to_string()]);
    t.unbind((3, 1));
    assert_eq!(t.get("E").unwrap(), &vec![(3, 0)]);
    assert_eq!(t.get("idle").unwrap(), &vec![(3, 3)]);
    assert!(t.clips_at((3, 1)).is_empty());
    let pairs = t.to_pairs();
    assert_eq!(pairs.len(), 5);
    let again = ClipTable::from_pairs(&pairs);
    assert_eq!(again.get("W").unwrap(), &vec![(7, 5)]);
}

#[test]
fn read_or_default_falls_back_to_default_mapping() {
    let fallback = r#"{ "idle": [[5, 5]], "E": [[6, 0]] }"#;
    let t = ClipTable::read_or_default(None, fallback);
    assert_eq!(t.get("idle").unwrap(), &vec![(5, 5)]);
    let t = ClipTable::read_or_default(Some("{"), fallback);
    assert_eq!(t.get("E").unwrap(), &vec![(6, 0)]);
    let t = ClipTable::read_or_default(Some(MAPPING), fallback);
    assert_eq!(t.get("idle").unwrap(), &vec![(3, 3)]);
    assert!(t.get("E").unwrap() == &vec![(3, 0), (3, 1)]);
    let t = ClipTable::read_or_default(Some("{"), "not json");
    assert!(t.to_pairs().is_empty());
    let s = Sprites::read_or_default(None, fallback);
    assert_eq!(s.frames("NW"), &[(5, 5)]);
    let s = Sprites::read_or_default(Some(MAPPING), fallback);
    assert_eq!(s.frames("NW"), &[(3, 3)]);
}

#[test]
fn export_then_read_back_gives_same_table() {
    let t = ClipTable::from_json(MAPPING).unwrap();
    let back = ClipTable::from_pairs(&t.to_pairs());
    for name in ["idle", "E", "alert", "sleeping", "W"] {
        assert_eq!(t.get(name), back.get(name));
    }
}

#[test]
fn resting_cat_sleeps_against_a_wall() {
    let mut p = Pet::new(Sprites::from_json(MAPPING).unwrap());
    let left = Edges { left: true, top: false, right: false, bottom: false };
    let mut poses = Vec::new();
    for _ in 0..22 {
        p.update(Motion::Arrived(left), State::Rest);
        poses.push(p.current_clip());
    }
    assert_eq!(&poses[0..2], &["alert", "alert"]);
    assert_eq!(&poses[2..7], &["scratchSelf"; 5]);
    assert_eq!(&poses[7..20], &["tired"; 13]);
    assert_eq!(&poses[20..22], &["sleeping", "sleeping"]);
    p.update(Motion::Arrived(left), State::Chase);
    assert_eq!(p.current_clip(), "scratchWallW");
}

#[test]
fn table_json_text_reads_back() {
    let t = ClipTable::from_json(MAPPING).unwrap();
    let text = t.to_json().unwrap();
    assert_ne!(text, MAPPING);
    let back = ClipTable::from_json(&text).unwrap();
    for name in ["idle", "E", "alert", "sleeping", "W"] {
        assert_eq!(t.get(name), back.get(name));
    }
    assert_eq!(ClipTable::new().to_json().unwrap(), "{}");
}

#[test]
fn mapping_error_has_a_message() {
    let e = match ClipTable::from_json("{ \"idle\": 3 }") {
        Ok(_) => panic!("parsed"),
        Err(e) => e,
    };
    assert!(!e.message().is_empty());
    assert!(e.message().contains("line 1"));
}
