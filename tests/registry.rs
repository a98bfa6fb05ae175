use smenu::config::{default_layout, layout_or_default, Category, Emulator, MenuEntry, MenuLayout, System};
use smenu::registry::{ConsoleMode, Notice, Registry, RomFile, RomListing};
use smenu::text::{extension_of, program_name, stem_of};

fn s(x: &str) -> String {
    x.to_string()
}

fn item(name: &str, category: Category, uses_wayland: bool) -> MenuEntry {
    MenuEntry {
        name: s(name),
        category,
        uses_wayland,
        executable: format!("/usr/bin/{}", name),
        args: vec![s("--flag")],
        env: vec![(s("A"), s("1"))],
    }
}

fn rom(name: &str, dir: &str) -> RomFile {
    RomFile { file_name: s(name), path: format!("{}/{}", dir, name) }
}

fn emulator(exe: &str, systems: &[&str]) -> Emulator {
    Emulator {
        executable: s(exe),
        args: vec![s("-f")],
        env: vec![(s("EMU"), s("yes"))],
        systems: systems.iter().map(|x| s(x)).collect(),
    }
}

fn system(name: &str, dir: &str, exts: &[&str]) -> System {
    System {
        name: s(name),
        rom_directory: s(dir),
        file_extensions: exts.iter().map(|x| s(x)).collect(),
    }
}

#[test]
fn extension_is_text_after_last_dot() {
    assert_eq!(extension_of("game.tar.gz"), "gz");
    assert_eq!(extension_of("mario.nes"), "nes");
    assert_eq!(extension_of("README"), "README");
    assert_eq!(extension_of("trailing."), "");
}

#[test]
fn stem_is_text_before_first_dot() {
    assert_eq!(stem_of("game.tar.gz"), "game");
    assert_eq!(stem_of("README"), "README");
    assert_eq!(stem_of(".hidden"), "");
}

#[test]
fn program_name_is_last_path_component() {
    assert_eq!(program_name("/usr/bin/retroarch"), "retroarch");
    assert_eq!(program_name("foot"), "foot");
}

#[test]
fn static_ids_follow_declaration_order() {
    let layout = MenuLayout {
        items: vec![
            item("shell", Category::Tools, false),
            item("browser", Category::Programs, true),
            item("top", Category::Tools, false),
        ],
        emulators: vec![],
        systems: vec![],
    };
    let reg = Registry::build(&layout, &vec![]);
    assert_eq!(reg.len(), 3);
    let names: Vec<&str> = reg.entries().iter().map(|e| e.name.as_str()).collect();
    assert_eq!(names, vec!["shell", "browser", "top"]);
    for (i, e) in reg.entries().iter().enumerate() {
        assert_eq!(e.id, i as u128);
    }
    assert_eq!(reg.entries()[0].mode, ConsoleMode::Console);
    assert_eq!(reg.entries()[1].mode, ConsoleMode::Graphical);
    assert_eq!(reg.entries()[1].executable, "/usr/bin/browser");
    assert_eq!(reg.entries()[1].args, vec![s("--flag")]);
    assert_eq!(reg.entries()[1].env, vec![(s("A"), s("1"))]);
    let tabs = reg.tabs();
    assert_eq!(tabs.len(), 2);
    assert_eq!(tabs[0].title, "System Tools");
    let tools: Vec<(String, u128)> = tabs[0].buttons.iter().map(|b| (b.label.clone(), b.id)).collect();
    assert_eq!(tools, vec![(s("shell"), 0), (s("top"), 2)]);
    assert_eq!(tabs[1].title, "Programs");
    assert_eq!(tabs[1].buttons.len(), 1);
    assert_eq!(tabs[1].buttons[0].id, 1);
    assert!(reg.notices().is_empty());
}

#[test]
fn rom_entries_continue_after_static_ids() {
    let layout = MenuLayout {
        items: vec![item("shell", Category::Tools, false)],
        emulators: vec![emulator("/usr/bin/other", &["gb"]), emulator("/usr/bin/nes-emu", &["nes", "snes"])],
        systems: vec![system("nes", "/roms/nes", &["nes"])],
    };
    let listing = RomListing::Files(vec![
        rom("mario.nes", "/roms/nes"),
        rom("notes.txt", "/roms/nes"),
        rom("zelda.v2.nes", "/roms/nes"),
    ]);
    let reg = Registry::build(&layout, &vec![listing]);
    assert_eq!(reg.len(), 3);
    let mario = reg.get(1).unwrap();
    assert_eq!(mario.id, 1);
    assert_eq!(mario.name, "mario");
    assert_eq!(mario.mode, ConsoleMode::Graphical);
    assert_eq!(mario.executable, "/usr/bin/nes-emu");
    assert_eq!(mario.args, vec![s("-f"), s("/roms/nes/mario.nes")]);
    assert_eq!(mario.env, vec![(s("EMU"), s("yes"))]);
    let zelda = reg.get(2).unwrap();
    assert_eq!(zelda.name, "zelda");
    assert_eq!(zelda.args, vec![s("-f"), s("/roms/nes/zelda.v2.nes")]);
    assert!(reg.get(3).is_none());
    assert_eq!(reg.notices(), &vec![Notice::WrongExtension { system: 0, file: 1 }]);
    let tabs = reg.tabs();
    assert_eq!(tabs.len(), 3);
    assert_eq!(tabs[2].title, "nes");
    let buttons: Vec<(String, u128)> = tabs[2].buttons.iter().map(|b| (b.label.clone(), b.id)).collect();
    assert_eq!(buttons, vec![(s("mario"), 1), (s("zelda"), 2)]);
}

#[test]
fn missing_directory_contributes_no_entries() {
    let layout = MenuLayout {
        items: vec![item("shell", Category::Tools, false)],
        emulators: vec![emulator("/usr/bin/emu", &["gb", "nes"])],
        systems: vec![system("gb", "/roms/gb", &["gb"]), system("nes", "/roms/nes", &["nes"])],
    };
    let listings = vec![RomListing::Missing, RomListing::Files(vec![rom("mario.nes", "/roms/nes")])];
    let reg = Registry::build(&layout, &listings);
    assert_eq!(reg.len(), 2);
    assert_eq!(reg.get(1).unwrap().name, "mario");
    assert_eq!(reg.notices(), &vec![Notice::RomDirectoryMissing { system: 0 }]);
    assert_eq!(reg.tabs().len(), 3);
    assert_eq!(reg.tabs()[2].title, "nes");
}

#[test]
fn unreadable_directory_contributes_no_entries() {
    let layout = MenuLayout {
        items: vec![],
        emulators: vec![emulator("/usr/bin/emu", &["gb"])],
        systems: vec![system("gb", "/roms/gb", &["gb"])],
    };
    let reg = Registry::build(&layout, &vec![RomListing::Unreadable]);
    assert_eq!(reg.len(), 0);
    assert_eq!(reg.notices(), &vec![Notice::RomDirectoryUnreadable { system: 0 }]);
}

#[test]
fn system_without_emulator_contributes_no_entries() {
    let layout = MenuLayout {
        items: vec![],
        emulators: vec![emulator("/usr/bin/emu", &["gb"])],
        systems: vec![system("psx", "/roms/psx", &["bin"]), system("gb", "/roms/gb", &["gb"])],
    };
    let listings = vec![
        RomListing::Files(vec![rom("crash.bin", "/roms/psx")]),
        RomListing::Files(vec![rom("tetris.gb", "/roms/gb")]),
    ];
    let reg = Registry::build(&layout, &listings);
    assert_eq!(reg.len(), 1);
    assert_eq!(reg.get(0).unwrap().name, "tetris");
    assert_eq!(reg.notices(), &vec![Notice::NoEmulator { system: 0 }]);
    assert_eq!(reg.tabs().len(), 3);
    assert_eq!(reg.tabs()[2].title, "gb");
}

#[test]
fn empty_listing_still_gives_a_tab() {
    let layout = MenuLayout {
        items: vec![],
        emulators: vec![emulator("/usr/bin/emu", &["gb"])],
        systems: vec![system("gb", "/roms/gb", &["gb"])],
    };
    let reg = Registry::build(&layout, &vec![RomListing::Files(vec![])]);
    assert_eq!(reg.len(), 0);
    assert_eq!(reg.tabs().len(), 3);
    assert!(reg.tabs()[2].buttons.is_empty());
}

#[test]
fn fallback_layout_builds_default_entries() {
    let layout = layout_or_default(None);
    let reg = Registry::build(&layout, &vec![]);
    assert_eq!(reg.len(), 1);
    let shell = reg.get(0).unwrap();
    assert_eq!(shell.name, "Shell");
    assert_eq!(shell.executable, "/bin/sh");
    assert_eq!(shell.mode, ConsoleMode::Console);
    assert_eq!(reg.tabs()[0].buttons.len(), 1);
}

#[test]
fn loaded_layout_is_kept() {
    let layout = MenuLayout { items: vec![item("top", Category::Programs, false)], emulators: vec![], systems: vec![] };
    let chosen = layout_or_default(Some(layout));
    assert_eq!(chosen.items.len(), 1);
    assert_eq!(chosen.items[0].name, "top");
    assert_eq!(default_layout().items[0].name, "Shell");
}
