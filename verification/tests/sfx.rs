use tpsecore::sfx::{plan_sound_effects, remove_key};

fn strings(v: &[&str]) -> Vec<String> {
    v.iter().map(|s| s.to_string()).collect()
}

#[test]
fn file_key_is_taken_out() {
    assert_eq!(remove_key("harddrop_sfx", "_sfx"), "harddrop");
    assert_eq!(remove_key("a_sfx_b_sfx", "_sfx"), "a_b");
    assert_eq!(remove_key("__sfxx", "_sfx"), "_x");
    assert_eq!(remove_key("hold", "_sfx"), "hold");
    // The same as std's replace with an empty replacement.
    assert_eq!(remove_key("x_sfx_sfxy", "_sfx"), "x_sfx_sfxy".replace("_sfx", ""));
}

#[test]
fn sound_effects_replace_sprites_once() {
    let names = strings(&["hold", "harddrop_sfx", "hold", "unknown"]);
    let sprites = strings(&["hold", "harddrop", "move", "hold"]);
    let plan = plan_sound_effects(&names, &sprites);
    assert_eq!(plan.replacements, vec![(0, 3), (1, 1)]);
    assert_eq!(plan.kept, vec![2]);
}

#[test]
fn without_custom_sounds_every_sprite_is_kept() {
    let sprites = strings(&["a", "b", "c"]);
    let plan = plan_sound_effects(&vec![], &sprites);
    assert!(plan.replacements.is_empty());
    assert_eq!(plan.kept, vec![0, 1, 2]);
}
