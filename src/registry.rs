use vstd::prelude::*;

use crate::config::{Category, Emulator, MenuEntry, MenuLayout, System};
use crate::text::{extension_of, extension_spec, stem_of, stem_spec};

verus! {

/// How a launched program is wired to the consoles.
#[derive(Clone, Copy, Debug, PartialEq, Eq, Structural)]
pub enum ConsoleMode {
    /// Owns a text console: its standard streams are that console's device.
    Console,
    /// Draws on the display console: no input, output captured to the log.
    Graphical,
}

/// One launchable menu item, static or found among a system's ROM files.
#[derive(Debug)]
pub struct Entry {
    pub id: u128,
    pub name: String,
    pub mode: ConsoleMode,
    pub executable: String,
    pub args: Vec<String>,
    pub env: Vec<(String, String)>,
}

/// What an entry is, apart from its id.
pub struct EntryView {
    pub name: Seq<char>,
    pub mode: ConsoleMode,
    pub executable: Seq<char>,
    pub args: Seq<Seq<char>>,
    pub env: Seq<(Seq<char>, Seq<char>)>,
}

impl View for Entry {
    type V = EntryView;

    open spec fn view(&self) -> EntryView {
        EntryView {
            name: self.name@,
            mode: self.mode,
            executable: self.executable@,
            args: self.args.deep_view(),
            env: self.env.deep_view(),
        }
    }
}

/// A file found in a ROM directory.
#[derive(Debug)]
pub struct RomFile {
    /// The file's name within its directory.
    pub file_name: String,
    /// The file's absolute path.
    pub path: String,
}

/// What listing a system's ROM directory gave.
#[derive(Debug)]
pub enum RomListing {
    /// The directory does not exist.
    Missing,
    /// The directory exists but could not be read.
    Unreadable,
    /// The files of the directory, in the order the storage yields them.
    Files(Vec<RomFile>),
}

pub open spec fn mode_spec(uses_wayland: bool) -> ConsoleMode {
    if uses_wayland {
        ConsoleMode::Graphical
    } else {
        ConsoleMode::Console
    }
}

/// The entry a statically declared item becomes.
pub open spec fn item_view(item: MenuEntry) -> EntryView {
    EntryView {
        name: item.name@,
        mode: mode_spec(item.uses_wayland),
        executable: item.executable@,
        args: item.args.deep_view(),
        env: item.env.deep_view(),
    }
}

/// The entry a ROM file becomes under its emulator: the emulator's program
/// with the file's path as last argument.
pub open spec fn rom_view(file: RomFile, emu: Emulator) -> EntryView {
    EntryView {
        name: stem_spec(file.file_name@),
        mode: ConsoleMode::Graphical,
        executable: emu.executable@,
        args: emu.args.deep_view().push(file.path@),
        env: emu.env.deep_view(),
    }
}

/// Index of the first emulator that lists `system`, or -1.
pub open spec fn emulator_index(emus: Seq<Emulator>, system: Seq<char>) -> int
    decreases emus.len(),
{
    if emus.len() == 0 {
        -1
    } else {
        let k = emulator_index(emus.drop_last(), system);
        if k >= 0 {
            k
        } else if emus.last().systems.deep_view().contains(system) {
            emus.len() - 1
        } else {
            -1
        }
    }
}

/// The files of a listing whose extension is one of `exts`, in their order.
pub open spec fn accepted_files(files: Seq<RomFile>, exts: Seq<Seq<char>>) -> Seq<RomFile>
    decreases files.len(),
{
    if files.len() == 0 {
        Seq::empty()
    } else {
        let rest = accepted_files(files.drop_last(), exts);
        if exts.contains(extension_spec(files.last().file_name@)) {
            rest.push(files.last())
        } else {
            rest
        }
    }
}

/// Whether a system is offered at all: its directory was listed and an
/// emulator runs it.
pub open spec fn system_offered(sys: System, emus: Seq<Emulator>, listing: RomListing) -> bool {
    listing is Files && emulator_index(emus, sys.name@) >= 0
}

/// The entries a system contributes.
pub open spec fn system_spec(sys: System, emus: Seq<Emulator>, listing: RomListing) -> Seq<EntryView> {
    if system_offered(sys, emus, listing) {
        let emu = emus[emulator_index(emus, sys.name@)];
        accepted_files(listing->Files_0@, sys.file_extensions.deep_view()).map_values(
            |f: RomFile| rom_view(f, emu),
        )
    } else {
        Seq::empty()
    }
}

/// The entries of the systems, one system after the other.
pub open spec fn systems_spec(
    systems: Seq<System>,
    emus: Seq<Emulator>,
    listings: Seq<RomListing>,
) -> Seq<EntryView>
    decreases systems.len(),
{
    if systems.len() == 0 || listings.len() < systems.len() {
        Seq::empty()
    } else {
        let n = systems.len() - 1;
        systems_spec(systems.drop_last(), emus, listings) + system_spec(
            systems[n],
            emus,
            listings[n],
        )
    }
}

/// Every entry of the registry, in id order: the static items, then the
/// entries of each system.
pub open spec fn registry_spec(layout: MenuLayout, listings: Seq<RomListing>) -> Seq<EntryView> {
    layout.items@.map_values(|it: MenuEntry| item_view(it)) + systems_spec(
        layout.systems@,
        layout.emulators@,
        listings,
    )
}

pub(crate) fn clone_strings(v: &Vec<String>) -> (r: Vec<String>)
    ensures
        r.deep_view() == v.deep_view(),
{
    let mut r: Vec<String> = Vec::new();
    let mut i: usize = 0;
    while i < v.len()
        invariant
            i <= v.len(),
            r@.len() == i,
            forall|j: int| 0 <= j < i ==> r@[j]@ == v@[j]@,
        decreases v.len() - i,
    {
        r.push(v[i].clone());
        i = i + 1;
    }
    assert(r.deep_view() =~= v.deep_view());
    r
}

pub(crate) fn clone_env(v: &Vec<(String, String)>) -> (r: Vec<(String, String)>)
    ensures
        r.deep_view() == v.deep_view(),
{
    let mut r: Vec<(String, String)> = Vec::new();
    let mut i: usize = 0;
    while i < v.len()
        invariant
            i <= v.len(),
            r@.len() == i,
            forall|j: int| 0 <= j < i ==> r@[j].0@ == v@[j].0@ && r@[j].1@ == v@[j].1@,
        decreases v.len() - i,
    {
        let pair = (v[i].0.clone(), v[i].1.clone());
        r.push(pair);
        i = i + 1;
    }
    assert(r.deep_view() =~= v.deep_view());
    r
}

fn contains_string(v: &Vec<String>, s: &String) -> (r: bool)
    ensures
        r == v.deep_view().contains(s@),
{
    let mut i: usize = 0;
    while i < v.len()
        invariant
            i <= v.len(),
            forall|j: int| 0 <= j < i ==> v.deep_view()[j] != s@,
        decreases v.len() - i,
    {
        if v[i] == *s {
            assert(v.deep_view()[i as int] == s@);
            return true;
        }
        i = i + 1;
    }
    false
}

/// The first emulator, in declaration order, that lists `system`.
pub fn find_emulator(emus: &Vec<Emulator>, system: &String) -> (r: Option<usize>)
    ensures
        r is Some <==> emulator_index(emus@, system@) >= 0,
        r is Some ==> r->0 == emulator_index(emus@, system@) && r->0 < emus@.len(),
{
    let mut i: usize = 0;
    while i < emus.len()
        invariant
            i <= emus.len(),
            emulator_index(emus@.subrange(0, i as int), system@) == -1,
        decreases emus.len() - i,
    {
        let found = contains_string(&emus[i].systems, system);
        proof {
            assert(emus@.subrange(0, i + 1).drop_last() =~= emus@.subrange(0, i as int));
        }
        if found {
            proof {
                lemma_emulator_index_prefix(emus@, system@, i + 1);
            }
            return Some(i);
        }
        i = i + 1;
    }
    assert(emus@.subrange(0, i as int) =~= emus@);
    None
}

proof fn lemma_emulator_index_prefix(emus: Seq<Emulator>, system: Seq<char>, k: int)
    requires
        0 <= k <= emus.len(),
        emulator_index(emus.subrange(0, k), system) >= 0,
    ensures
        emulator_index(emus, system) == emulator_index(emus.subrange(0, k), system),
    decreases emus.len() - k,
{
    if k < emus.len() {
        assert(emus.subrange(0, k + 1).drop_last() =~= emus.subrange(0, k));
        lemma_emulator_index_prefix(emus, system, k + 1);
    } else {
        assert(emus.subrange(0, k) =~= emus);
    }
}

fn rom_entry(file: &RomFile, emu: &Emulator, id: u128) -> (r: Entry)
    ensures
        r@ == rom_view(*file, *emu),
        r.id == id,
{
    let mut args = clone_strings(&emu.args);
    args.push(file.path.clone());
    let r = Entry {
        id,
        name: stem_of(file.file_name.as_str()),
        mode: ConsoleMode::Graphical,
        executable: emu.executable.clone(),
        args,
        env: clone_env(&emu.env),
    };
    assert(r.args.deep_view() =~= emu.args.deep_view().push(file.path@));
    r
}

} // verus!

verus! {

/// Why part of the configuration yields no entry. Systems are named by their
/// index in the configuration, files by their index in the system's listing.
#[derive(Clone, Copy, Debug, PartialEq, Eq, Structural)]
pub enum Notice {
    /// The system's ROM directory does not exist.
    RomDirectoryMissing { system: usize },
    /// The system's ROM directory could not be listed.
    RomDirectoryUnreadable { system: usize },
    /// No emulator lists the system.
    NoEmulator { system: usize },
    /// The file's extension is not one the system allows.
    WrongExtension { system: usize, file: usize },
}

/// The notices for the files of a listing that a system does not allow.
pub open spec fn rejected_notices(files: Seq<RomFile>, exts: Seq<Seq<char>>, system: usize) -> Seq<
    Notice,
>
    decreases files.len(),
{
    if files.len() == 0 {
        Seq::empty()
    } else {
        let rest = rejected_notices(files.drop_last(), exts, system);
        if exts.contains(extension_spec(files.last().file_name@)) {
            rest
        } else {
            rest.push(Notice::WrongExtension { system, file: (files.len() - 1) as usize })
        }
    }
}

/// The notices a system gives while its entries are collected.
pub open spec fn system_notices(
    k: usize,
    sys: System,
    emus: Seq<Emulator>,
    listing: RomListing,
) -> Seq<Notice> {
    match listing {
        RomListing::Missing => seq![Notice::RomDirectoryMissing { system: k }],
        RomListing::Unreadable => seq![Notice::RomDirectoryUnreadable { system: k }],
        RomListing::Files(files) => if emulator_index(emus, sys.name@) >= 0 {
            rejected_notices(files@, sys.file_extensions.deep_view(), k)
        } else {
            seq![Notice::NoEmulator { system: k }]
        },
    }
}

/// The notices of the systems, one system after the other.
pub open spec fn systems_notices(
    systems: Seq<System>,
    emus: Seq<Emulator>,
    listings: Seq<RomListing>,
) -> Seq<Notice>
    decreases systems.len(),
{
    if systems.len() == 0 || listings.len() < systems.len() {
        Seq::empty()
    } else {
        let n = systems.len() - 1;
        systems_notices(systems.drop_last(), emus, listings) + system_notices(
            n as usize,
            systems[n],
            emus,
            listings[n],
        )
    }
}

pub open spec fn views(v: Seq<Entry>) -> Seq<EntryView> {
    v.map_values(|e: Entry| e@)
}

/// Each entry's id is its position.
pub open spec fn ids_sequential(v: Seq<Entry>) -> bool {
    forall|j: int| 0 <= j < v.len() ==> (#[trigger] v[j]).id == j
}

fn add_system(
    entries: &mut Vec<Entry>,
    notices: &mut Vec<Notice>,
    k: usize,
    sys: &System,
    emus: &Vec<Emulator>,
    listing: &RomListing,
) -> (offered: bool)
    requires
        ids_sequential(old(entries)@),
    ensures
        offered == system_offered(*sys, emus@, *listing),
        ids_sequential(final(entries)@),
        views(final(entries)@) == views(old(entries)@) + system_spec(*sys, emus@, *listing),
        final(notices)@ == old(notices)@ + system_notices(k, *sys, emus@, *listing),
{
    let files = match listing {
        RomListing::Missing => {
            notices.push(Notice::RomDirectoryMissing { system: k });
            assert(views(entries@) =~= views(entries@) + Seq::empty());
            return false;
        },
        RomListing::Unreadable => {
            notices.push(Notice::RomDirectoryUnreadable { system: k });
            assert(views(entries@) =~= views(entries@) + Seq::empty());
            return false;
        },
        RomListing::Files(files) => files,
    };
    let emu = match find_emulator(emus, &sys.name) {
        Some(e) => &emus[e],
        None => {
            notices.push(Notice::NoEmulator { system: k });
            assert(views(entries@) =~= views(entries@) + Seq::empty());
            return false;
        },
    };
    let ghost exts = sys.file_extensions.deep_view();
    let ghost start = views(entries@);
    let ghost notes = notices@;
    let mut i: usize = 0;
    assert(files@.subrange(0, 0) =~= Seq::<RomFile>::empty());
    assert(views(entries@) =~= start + Seq::empty());
    assert(notices@ =~= notes + Seq::empty());
    while i < files.len()
        invariant
            i <= files.len(),
            ids_sequential(entries@),
            views(entries@) == start + accepted_files(files@.subrange(0, i as int), exts).map_values(
                |f: RomFile| rom_view(f, *emu),
            ),
            notices@ == notes + rejected_notices(files@.subrange(0, i as int), exts, k),
            exts == sys.file_extensions.deep_view(),
        decreases files.len() - i,
    {
        let file = &files[i];
        let ext = extension_of(file.file_name.as_str());
        let ghost prev = files@.subrange(0, i as int);
        let ghost next = files@.subrange(0, i + 1);
        assert(next.drop_last() =~= prev);
        assert(next.last() == *file);
        let ghost before = entries@;
        if contains_string(&sys.file_extensions, &ext) {
            let id = entries.len() as u128;
            let e = rom_entry(file, emu, id);
            entries.push(e);
            proof {
                assert(views(entries@) =~= views(before).push(rom_view(*file, *emu)));
                let f = |f: RomFile| rom_view(f, *emu);
                assert(accepted_files(next, exts).map_values(f) =~= accepted_files(prev, exts).map_values(f).push(rom_view(*file, *emu)));
                assert(views(entries@) =~= start + accepted_files(next, exts).map_values(f));
                assert(forall|j: int| 0 <= j < before.len() ==> entries@[j] == before[j]);
            }
        } else {
            notices.push(Notice::WrongExtension { system: k, file: i });
            proof {
                assert(notices@ =~= notes + rejected_notices(next, exts, k));
            }
        }
        i = i + 1;
    }
    assert(files@.subrange(0, i as int) =~= files@);
    true
}

} // verus!

verus! {

/// A menu button: its label and the id of the entry it launches.
#[derive(Debug)]
pub struct Button {
    pub label: String,
    pub id: u128,
}

/// A menu tab: its title and one button per line.
#[derive(Debug)]
pub struct Tab {
    pub title: String,
    pub buttons: Vec<Button>,
}

pub struct TabView {
    pub title: Seq<char>,
    pub buttons: Seq<(Seq<char>, int)>,
}

impl View for Tab {
    type V = TabView;

    open spec fn view(&self) -> TabView {
        TabView {
            title: self.title@,
            buttons: self.buttons@.map_values(|b: Button| (b.label@, b.id as int)),
        }
    }
}

pub open spec fn tab_views(v: Seq<Tab>) -> Seq<TabView> {
    v.map_values(|t: Tab| t@)
}

/// The buttons of the static items of category `c`, each with the item's
/// position as id.
pub open spec fn category_buttons(items: Seq<MenuEntry>, c: Category) -> Seq<(Seq<char>, int)>
    decreases items.len(),
{
    if items.len() == 0 {
        Seq::empty()
    } else {
        let rest = category_buttons(items.drop_last(), c);
        if items.last().category == c {
            rest.push((items.last().name@, items.len() - 1))
        } else {
            rest
        }
    }
}

/// One button per entry of `es`, whose ids start at `first`.
pub open spec fn entry_buttons(es: Seq<EntryView>, first: int) -> Seq<(Seq<char>, int)> {
    Seq::new(es.len(), |j: int| (es[j].name, first + j))
}

/// One tab per offered system, for systems whose entries take ids from `base` on.
pub open spec fn system_tabs(
    systems: Seq<System>,
    emus: Seq<Emulator>,
    listings: Seq<RomListing>,
    base: int,
) -> Seq<TabView>
    decreases systems.len(),
{
    if systems.len() == 0 || listings.len() < systems.len() {
        Seq::empty()
    } else {
        let n = systems.len() - 1;
        let prefix = system_tabs(systems.drop_last(), emus, listings, base);
        if system_offered(systems[n], emus, listings[n]) {
            prefix.push(
                TabView {
                    title: systems[n].name@,
                    buttons: entry_buttons(
                        system_spec(systems[n], emus, listings[n]),
                        base + systems_spec(systems.drop_last(), emus, listings).len(),
                    ),
                },
            )
        } else {
            prefix
        }
    }
}

/// The menu: the tools tab, the programs tab, then a tab per offered system.
pub open spec fn menu_spec(layout: MenuLayout, listings: Seq<RomListing>) -> Seq<TabView> {
    seq![
        TabView {
            title: "System Tools"@,
            buttons: category_buttons(layout.items@, Category::Tools),
        },
        TabView { title: "Programs"@, buttons: category_buttons(layout.items@, Category::Programs) },
    ] + system_tabs(layout.systems@, layout.emulators@, listings, layout.items@.len() as int)
}

} // verus!

verus! {

fn item_entry(item: &MenuEntry, id: u128) -> (r: Entry)
    ensures
        r@ == item_view(*item),
        r.id == id,
{
    Entry {
        id,
        name: item.name.clone(),
        mode: if item.uses_wayland {
            ConsoleMode::Graphical
        } else {
            ConsoleMode::Console
        },
        executable: item.executable.clone(),
        args: clone_strings(&item.args),
        env: clone_env(&item.env),
    }
}

fn entry_buttons_from(entries: &Vec<Entry>, start: usize) -> (r: Vec<Button>)
    requires
        start <= entries@.len(),
        ids_sequential(entries@),
    ensures
        r@.map_values(|b: Button| (b.label@, b.id as int)) == entry_buttons(
            views(entries@).subrange(start as int, entries@.len() as int),
            start as int,
        ),
{
    let mut r: Vec<Button> = Vec::new();
    let mut j: usize = start;
    while j < entries.len()
        invariant
            start <= j <= entries@.len(),
            ids_sequential(entries@),
            r@.len() == j - start,
            forall|t: int|
                0 <= t < r@.len() ==> (#[trigger] r@[t]).label@ == entries@[start + t].name@
                    && r@[t].id == start + t,
        decreases entries.len() - j,
    {
        let b = Button { label: entries[j].name.clone(), id: entries[j].id };
        r.push(b);
        j = j + 1;
    }
    assert(r@.map_values(|b: Button| (b.label@, b.id as int)) =~= entry_buttons(
        views(entries@).subrange(start as int, entries@.len() as int),
        start as int,
    ));
    r
}

/// The built registry: every launchable entry by id, the menu that offers
/// them, and why parts of the configuration were left out.
pub struct Registry {
    entries: Vec<Entry>,
    tabs: Vec<Tab>,
    notices: Vec<Notice>,
}

impl Registry {
    pub closed spec fn entry_seq(&self) -> Seq<Entry> {
        self.entries@
    }

    pub closed spec fn tab_seq(&self) -> Seq<Tab> {
        self.tabs@
    }

    pub closed spec fn notice_seq(&self) -> Seq<Notice> {
        self.notices@
    }

    /// Each entry's id is its position.
    pub open spec fn wf(&self) -> bool {
        ids_sequential(self.entry_seq())
    }

    #[verifier::type_invariant]
    closed spec fn ids_are_positions(&self) -> bool {
        ids_sequential(self.entries@)
    }

    /// Builds the registry from the configuration and, for each system in
    /// order, the listing of its ROM directory. Static items take ids from
    /// zero in declaration order; the accepted files of each offered system
    /// follow, system after system.
    pub fn build(layout: &MenuLayout, listings: &Vec<RomListing>) -> (r: Registry)
        requires
            listings@.len() == layout.systems@.len(),
        ensures
            r.wf(),
            views(r.entry_seq()) == registry_spec(*layout, listings@),
            tab_views(r.tab_seq()) == menu_spec(*layout, listings@),
            r.notice_seq() == systems_notices(layout.systems@, layout.emulators@, listings@),
    {
        let items = &layout.items;
        let mut entries: Vec<Entry> = Vec::new();
        let mut tools: Vec<Button> = Vec::new();
        let mut programs: Vec<Button> = Vec::new();
        let ghost lab = |b: Button| (b.label@, b.id as int);
        let mut i: usize = 0;
        assert(items@.subrange(0, 0) =~= Seq::<MenuEntry>::empty());
        assert(views(entries@) =~= Seq::empty());
        assert(tools@.map_values(lab) =~= Seq::empty());
        assert(programs@.map_values(lab) =~= Seq::empty());
        while i < items.len()
            invariant
                i <= items@.len(),
                entries@.len() == i,
                ids_sequential(entries@),
                views(entries@) == items@.subrange(0, i as int).map_values(
                    |it: MenuEntry| item_view(it),
                ),
                tools@.map_values(lab) == category_buttons(
                    items@.subrange(0, i as int),
                    Category::Tools,
                ),
                programs@.map_values(lab) == category_buttons(
                    items@.subrange(0, i as int),
                    Category::Programs,
                ),
                lab == (|b: Button| (b.label@, b.id as int)),
            decreases items.len() - i,
        {
            let item = &items[i];
            let ghost prev = items@.subrange(0, i as int);
            let ghost next = items@.subrange(0, i + 1);
            assert(next.drop_last() =~= prev);
            let ghost before = entries@;
            let ghost tools_before = tools@;
            let ghost programs_before = programs@;
            let b = Button { label: item.name.clone(), id: i as u128 };
            match item.category {
                Category::Tools => tools.push(b),
                Category::Programs => programs.push(b),
            }
            entries.push(item_entry(item, i as u128));
            proof {
                let f = |it: MenuEntry| item_view(it);
                assert(next.last() == *item);
                assert(views(entries@) =~= views(before).push(item_view(*item)));
                assert(next.map_values(f) =~= prev.map_values(f).push(item_view(*item)));
                assert(forall|j: int| 0 <= j < before.len() ==> entries@[j] == before[j]);
                assert(tools@.map_values(lab) =~= category_buttons(next, Category::Tools));
                assert(programs@.map_values(lab) =~= category_buttons(next, Category::Programs));
            }
            i = i + 1;
        }
        assert(items@.subrange(0, i as int) =~= items@);
        let mut tabs: Vec<Tab> = Vec::new();
        tabs.push(Tab { title: "System Tools".to_string(), buttons: tools });
        tabs.push(Tab { title: "Programs".to_string(), buttons: programs });
        let systems = &layout.systems;
        let emus = &layout.emulators;
        let ghost heads = items@.map_values(|it: MenuEntry| item_view(it));
        let ghost two = tab_views(tabs@);
        let mut notices: Vec<Notice> = Vec::new();
        let mut k: usize = 0;
        assert(systems@.subrange(0, 0) =~= Seq::<System>::empty());
        assert(views(entries@) =~= heads + Seq::empty());
        assert(tab_views(tabs@) =~= two + Seq::empty());
        assert(notices@ =~= Seq::empty());
        while k < systems.len()
            invariant
                k <= systems@.len(),
                listings@.len() == systems@.len(),
                ids_sequential(entries@),
                heads.len() == items@.len(),
                views(entries@) == heads + systems_spec(
                    systems@.subrange(0, k as int),
                    emus@,
                    listings@,
                ),
                tab_views(tabs@) == two + system_tabs(
                    systems@.subrange(0, k as int),
                    emus@,
                    listings@,
                    items@.len() as int,
                ),
                notices@ == systems_notices(systems@.subrange(0, k as int), emus@, listings@),
            decreases systems.len() - k,
        {
            let ghost prev = systems@.subrange(0, k as int);
            let ghost next = systems@.subrange(0, k + 1);
            assert(next.drop_last() =~= prev);
            let ghost tabs_before = tabs@;
            let start = entries.len();
            let offered = add_system(&mut entries, &mut notices, k, &systems[k], emus, &listings[k]);
            proof {
                assert(views(entries@) =~= heads + systems_spec(next, emus@, listings@));
            }
            if offered {
                let buttons = entry_buttons_from(&entries, start);
                tabs.push(Tab { title: systems[k].name.clone(), buttons });
                proof {
                    assert(views(entries@).subrange(start as int, entries@.len() as int) =~= system_spec(systems@[k as int], emus@, listings@[k as int]));
                    assert(tab_views(tabs@) =~= tab_views(tabs_before).push(tabs@.last()@));
                }
            }
            proof {
                assert(tab_views(tabs@) =~= two + system_tabs(next, emus@, listings@, items@.len() as int));
            }
            k = k + 1;
        }
        assert(systems@.subrange(0, k as int) =~= systems@);
        Registry { entries, tabs, notices }
    }
}

} // verus!

verus! {

impl Registry {
    /// The entry with id `id`, if there is one.
    pub fn get(&self, id: u128) -> (r: Option<&Entry>)
        ensures
            r is Some <==> id < self.entry_seq().len(),
            r is Some ==> *r->0 == self.entry_seq()[id as int] && r->0.id == id,
    {
        proof {
            use_type_invariant(self);
        }
        if id < self.entries.len() as u128 {
            Some(&self.entries[id as usize])
        } else {
            None
        }
    }

    /// The number of entries.
    pub fn len(&self) -> (r: usize)
        ensures
            r == self.entry_seq().len(),
    {
        self.entries.len()
    }

    /// All entries, in id order.
    pub fn entries(&self) -> (r: &Vec<Entry>)
        ensures
            r@ == self.entry_seq(),
    {
        &self.entries
    }

    /// The menu's tabs, in display order.
    pub fn tabs(&self) -> (r: &Vec<Tab>)
        ensures
            r@ == self.tab_seq(),
    {
        &self.tabs
    }

    /// Why parts of the configuration yield no entries, in the order found.
    pub fn notices(&self) -> (r: &Vec<Notice>)
        ensures
            r@ == self.notice_seq(),
    {
        &self.notices
    }
}

} // verus!
