use jandering_engine::game::bloom::{
    bloom_steps, bloom_texture_sizes, copy_extent, post_textures, PostBinding, BloomShader, BloomStep, BloomTexture, BLOOM_SHADER_PASSES,
};
use jandering_engine::game::bloom::BloomTexture::{Bloom, Read, Target};
use jandering_engine::game::state::{
    edit_commands, next_state, settle, settles, EditCommand, GameState,
};
use jandering_engine::game::tiles::{is_valid_map_text, TileSlot, Tiles, AIR, MAP_HEIGHT};
use jandering_engine::game::ui::{
    button_specs, ButtonPlacement, ScaleTarget, UIAction, UIElement, UIElementState,
    UserInterface, BUTTON_COUNT,
};
use jandering_engine::shader::BlendMode;
use jandering_engine::texture::GpuTextureFormat;
use jandering_engine::types::UVec2;
use jandering_engine::window::{InputState, Key, MouseButton, WindowEvent};

fn press(key: Key) -> WindowEvent {
    WindowEvent::KeyInput { key, state: InputState::Pressed }
}

fn left_click() -> WindowEvent {
    WindowEvent::MouseInput { button: MouseButton::Left, state: InputState::Pressed }
}

#[test]
fn menu_follows_the_last_key() {
    assert_eq!(next_state(GameState::MainMenu, &[]), GameState::MainMenu);
    assert_eq!(next_state(GameState::MainMenu, &[press(Key::Space)]), GameState::SetupPlaying);
    assert_eq!(next_state(GameState::MainMenu, &[press(Key::C)]), GameState::Creating);
    assert_eq!(
        next_state(GameState::MainMenu, &[press(Key::Space), press(Key::C)]),
        GameState::Creating
    );
    assert_eq!(next_state(GameState::MainMenu, &[press(Key::Escape)]), GameState::MainMenu);
}

#[test]
fn set_up_game_starts_playing() {
    assert_eq!(next_state(GameState::SetupPlaying, &[]), GameState::Playing);
    assert_eq!(next_state(GameState::SetupPlaying, &[press(Key::Escape)]), GameState::Playing);
}

#[test]
fn escape_leaves_a_game_in_play() {
    assert_eq!(next_state(GameState::Playing, &[press(Key::Space)]), GameState::Playing);
    let released = WindowEvent::KeyInput { key: Key::Escape, state: InputState::Released };
    assert_eq!(next_state(GameState::Playing, &[press(Key::A), released]), GameState::MainMenu);
}

#[test]
fn editor_keys() {
    assert_eq!(next_state(GameState::Creating, &[press(Key::D)]), GameState::Creating);
    assert_eq!(next_state(GameState::Creating, &[press(Key::Escape)]), GameState::MainMenu);
    assert_eq!(next_state(GameState::Creating, &[press(Key::Space)]), GameState::SetupPlaying);
    assert_eq!(
        next_state(GameState::Creating, &[press(Key::Space), press(Key::Escape)]),
        GameState::MainMenu
    );
}

#[test]
fn updates_settle_without_escape() {
    let events = [press(Key::Space)];
    let mut s = GameState::MainMenu;
    for _ in 0..3 {
        s = next_state(s, &events);
    }
    assert_eq!(s, GameState::Playing);
    assert_eq!(next_state(s, &events), s);

    let events = [press(Key::C)];
    let s = next_state(GameState::MainMenu, &events);
    assert_eq!(s, GameState::Creating);
    assert_eq!(next_state(s, &events), s);
}

#[test]
fn edits_in_event_order() {
    let events = [
        press(Key::D),
        press(Key::A),
        left_click(),
        WindowEvent::MouseInput { button: MouseButton::Right, state: InputState::Pressed },
        WindowEvent::KeyInput { key: Key::D, state: InputState::Released },
        press(Key::D),
    ];
    assert_eq!(
        edit_commands(&events),
        vec![
            EditCommand::ScrollForward,
            EditCommand::ScrollBack,
            EditCommand::PlaceGround,
            EditCommand::ScrollForward,
        ]
    );
}

#[test]
fn map_text_is_read_bottom_row_first() {
    let tiles = Tiles::parse("12\n3");
    assert_eq!(tiles.width, 2);
    assert_eq!(tiles.height, MAP_HEIGHT);
    assert_eq!(tiles.data, vec![3, 1, AIR, 2]);
}

#[test]
fn map_text_with_crlf_and_final_newline() {
    let tiles = Tiles::parse("120\r\n3\r\n45\n");
    assert_eq!(tiles.width, 3);
    assert_eq!(tiles.data, vec![4, 3, 1, 5, AIR, 2, AIR, AIR, 0]);
}

#[test]
fn map_text_validity() {
    assert!(is_valid_map_text("0123\n456"));
    assert!(is_valid_map_text("1\r\n2\r\n"));
    assert!(!is_valid_map_text(""));
    assert!(!is_valid_map_text("1a"));
    assert!(!is_valid_map_text("12\r"));
}

#[test]
fn tiles_are_read_and_written_by_index() {
    let mut tiles = Tiles { width: 2, height: 2, data: vec![1, 2, 3, 4] };
    assert_eq!(tiles.get_tile(2), Some(3));
    assert_eq!(tiles.get_tile(4), None);
    tiles.set_tile(1, 7);
    tiles.set_tile(9, 7);
    assert_eq!(tiles.data, vec![1, 7, 3, 4]);
    assert_eq!(
        tiles.slots(),
        vec![
            TileSlot { x: 0, y: 0, id: 1 },
            TileSlot { x: 0, y: 1, id: 7 },
            TileSlot { x: 1, y: 0, id: 3 },
            TileSlot { x: 1, y: 1, id: 4 },
        ]
    );
}

#[test]
fn bloom_textures_halve_the_screen() {
    let sizes = bloom_texture_sizes(UVec2::new(1920, 1081));
    assert_eq!(sizes.len(), BLOOM_SHADER_PASSES);
    assert_eq!(
        sizes,
        vec![
            UVec2::new(1920, 1081),
            UVec2::new(960, 540),
            UVec2::new(480, 270),
            UVec2::new(240, 135),
        ]
    );
}

fn step(source: BloomTexture, target: BloomTexture, shader: BloomShader, final_add: bool) -> BloomStep {
    BloomStep { source, target, shader, final_add }
}

#[test]
fn bloom_draw_order() {
    assert_eq!(
        bloom_steps(),
        vec![
            step(Read, Bloom(0), BloomShader::ThresholdBlit, false),
            step(Bloom(0), Bloom(1), BloomShader::Blit, false),
            step(Bloom(1), Bloom(2), BloomShader::Blit, false),
            step(Bloom(2), Bloom(3), BloomShader::Blit, false),
            step(Bloom(3), Bloom(2), BloomShader::Add, false),
            step(Bloom(2), Bloom(1), BloomShader::Add, false),
            step(Bloom(1), Bloom(0), BloomShader::Add, false),
            step(Bloom(0), Target, BloomShader::Add, true),
        ]
    );
}

#[test]
fn button_table() {
    let specs = button_specs();
    assert_eq!(specs.len(), BUTTON_COUNT);
    let actions: Vec<UIAction> = specs.iter().map(|s| s.on_press).collect();
    assert_eq!(
        actions,
        vec![UIAction::Play, UIAction::Create, UIAction::Pause, UIAction::Exit, UIAction::Resume]
    );
    assert_eq!(specs[0].texture, "play_btn.png");
    assert_eq!((specs[0].idle_width, specs[0].idle_height), (222, 220));
    assert_eq!(specs[1].placement, ButtonPlacement::Centered { down: 222 });
    assert_eq!(specs[2].placement, ButtonPlacement::FromTopLeft { x: 39, below_top: 40 });
    assert_eq!(specs[3].texture, "menu_btn.png");
    assert_eq!(specs[4].texture, "playepaused_btn.png");
    assert_eq!((specs[4].idle_width, specs[4].idle_height), (81, 81));
}

fn visible(ui: &UserInterface) -> Vec<bool> {
    ui.elements.iter().map(|e| e.visible).collect()
}

#[test]
fn each_screen_shows_its_buttons() {
    let mut ui = UserInterface::new();
    assert_eq!(visible(&ui), vec![false; 5]);
    ui.show_mainmenu();
    assert_eq!(visible(&ui), vec![true, true, false, false, false]);
    ui.show_playing();
    assert_eq!(visible(&ui), vec![false, false, true, false, false]);
    ui.show_paused();
    assert_eq!(visible(&ui), vec![false, false, false, true, true]);
    ui.show_creating();
    assert_eq!(visible(&ui), vec![false, false, false, true, false]);
    ui.hide_buttons();
    assert_eq!(visible(&ui), vec![false; 5]);
    assert!(ui.elements.iter().all(|e| e.should_update));
}

#[test]
fn click_answers_with_the_first_shown_button_under_the_pointer() {
    let mut ui = UserInterface::new();
    ui.show_paused();
    let hits = [true, true, false, true, true];
    let action = ui.update(&[left_click()], Some(&hits[..]));
    assert_eq!(action, Some(UIAction::Exit));
    assert_eq!(ui.elements[3].state, UIElementState::Pressed);
    assert_eq!(ui.elements[4].state, UIElementState::Idle);
}

#[test]
fn click_on_nothing_or_without_pointer() {
    let mut ui = UserInterface::new();
    ui.show_mainmenu();
    assert_eq!(ui.update(&[left_click()], Some(&[false, false, true][..])), None);
    assert_eq!(ui.update(&[left_click()], None), None);
    let right = WindowEvent::MouseInput { button: MouseButton::Right, state: InputState::Pressed };
    assert_eq!(ui.update(&[right], Some(&[true][..])), None);
    assert!(ui.elements.iter().all(|e| e.state == UIElementState::Idle));
}

#[test]
fn hover_turns_buttons_hovered_and_idle() {
    let mut ui = UserInterface::new();
    ui.show_mainmenu();
    for e in ui.elements.iter_mut() {
        e.timer_restarted = false;
    }
    let moved = WindowEvent::MouseMotion(0, 0);
    assert_eq!(ui.update(&[moved], Some(&[false, true, true][..])), None);
    assert_eq!(ui.elements[0].state, UIElementState::Idle);
    assert!(ui.elements[0].timer_restarted);
    assert_eq!(ui.elements[1].state, UIElementState::Hovered);
    assert!(ui.elements[1].timer_restarted);
    // A hidden button is left alone.
    assert_eq!(ui.elements[2].state, UIElementState::Idle);
    assert!(!ui.elements[2].timer_restarted);

    ui.elements[1].timer_restarted = false;
    ui.update(&[moved], Some(&[false, true][..]));
    assert_eq!(ui.elements[1].state, UIElementState::Hovered);
    assert!(!ui.elements[1].timer_restarted);
    assert_eq!(ui.elements[1].scale_target(), ScaleTarget::Hovered);
    assert_eq!(ui.elements[0].scale_target(), ScaleTarget::Idle);
}

#[test]
fn later_click_in_a_frame_wins() {
    let mut ui = UserInterface::new();
    ui.show_mainmenu();
    let moved = WindowEvent::MouseMotion(1, 1);
    let action = ui.update(&[left_click(), moved, left_click()], Some(&[false, true][..]));
    assert_eq!(action, Some(UIAction::Create));
    assert_eq!(ui.elements[1].state, UIElementState::Pressed);
}

#[test]
fn single_button_show_and_hide() {
    let mut e = UIElement::new(UIAction::Pause);
    assert!(!e.visible && !e.should_update);
    e.state = UIElementState::Pressed;
    assert_eq!(e.scale_target(), ScaleTarget::Keep);
    e.show();
    assert!(e.visible && e.should_update && e.timer_restarted);
    assert_eq!(e.state, UIElementState::Idle);
    e.hide_button();
    assert!(!e.visible);
    assert_eq!(e.on_press, UIAction::Pause);
}

#[test]
fn copies_cover_the_smaller_texture() {
    assert_eq!(copy_extent(UVec2::new(800, 600), UVec2::new(400, 900)), UVec2::new(400, 600));
    assert_eq!(copy_extent(UVec2::new(5, 5), UVec2::new(5, 5)), UVec2::new(5, 5));
}

#[test]
fn a_frame_runs_the_updates_until_they_settle() {
    assert_eq!(settle(GameState::Playing, &[]), vec![GameState::Playing]);
    assert_eq!(
        settle(GameState::MainMenu, &[press(Key::Space)]),
        vec![GameState::MainMenu, GameState::SetupPlaying, GameState::Playing]
    );
    assert_eq!(
        settle(GameState::Playing, &[press(Key::Escape)]),
        vec![GameState::Playing, GameState::MainMenu]
    );
    assert_eq!(settle(GameState::Creating, &[press(Key::C)]), vec![GameState::Creating]);
}

#[test]
fn escape_and_space_in_one_frame_never_settle() {
    assert!(!settles(GameState::Creating, &[press(Key::Space), press(Key::Escape)]));
    assert!(!settles(GameState::MainMenu, &[press(Key::Space), press(Key::Escape)]));
    assert!(settles(GameState::MainMenu, &[press(Key::Space)]));
    assert!(settles(GameState::Playing, &[press(Key::Escape)]));
}

#[test]
fn post_processing_textures_and_shaders() {
    let t = post_textures(UVec2::new(800, 600));
    assert_eq!(t.len(), 2 + BLOOM_SHADER_PASSES);
    assert_eq!(t[0].role, BloomTexture::Target);
    assert_eq!(t[0].size, UVec2::new(800, 600));
    assert!(t[0].usages.render_attachment && t[0].usages.copy_src);
    assert!(!t[0].usages.texture_binding && !t[0].usages.copy_dst);
    assert_eq!(t[1].role, BloomTexture::Read);
    assert!(t[1].usages.texture_binding && t[1].usages.copy_dst);
    assert_eq!(t[5].role, Bloom(3));
    assert_eq!(t[5].size, UVec2::new(100, 75));
    assert!(t[5].usages.render_attachment && t[5].usages.texture_binding);
    assert!(t.iter().all(|p| p.format == GpuTextureFormat::Rgba16Float));

    assert_eq!(BloomShader::ThresholdBlit.fs_entry(), "fs_thresholdblit");
    assert_eq!(BloomShader::Blit.fs_entry(), "fs_blit");
    assert_eq!(BloomShader::Tonemap.fs_entry(), "fs_tonemap");
    assert_eq!(BloomShader::Add.fs_entry(), "fs_main");
    assert_eq!(BloomShader::Add.bindings(), (PostBinding::Factor, PostBinding::ReadTexture));
    assert_eq!(BloomShader::ThresholdBlit.blend(), BlendMode::Replace);
    assert_eq!(BloomShader::Blit.blend(), BlendMode::Replace);
    assert_eq!(BloomShader::Add.blend(), BlendMode::Additive);
    assert_eq!(BloomShader::Tonemap.blend(), BlendMode::Alpha);
    assert_eq!(BloomShader::Blit.bindings(), (PostBinding::Resolution, PostBinding::ReadTexture));
}
