use vstd::prelude::*;

use crate::config::{is_default_layout, Emulator, MenuEntry, MenuLayout, System};
use crate::registry::{
    accepted_files, emulator_index, item_view, registry_spec, rom_view, system_offered,
    system_spec, systems_spec, views, Registry, RomFile, RomListing,
};
use crate::text::extension_spec;

verus! {

/// The static items come first, in declaration order, with ids that are
/// distinct and strictly increasing.
pub proof fn static_ids_increase(layout: MenuLayout, listings: Seq<RomListing>, r: Registry)
    requires
        r.wf(),
        views(r.entry_seq()) == registry_spec(layout, listings),
    ensures
        layout.items@.len() <= r.entry_seq().len(),
        forall|i: int|
            0 <= i < layout.items@.len() ==> (#[trigger] r.entry_seq()[i])@ == item_view(
                layout.items@[i],
            ),
        forall|i: int, j: int|
            0 <= i < j < layout.items@.len() ==> (#[trigger] r.entry_seq()[i]).id < (
            #[trigger] r.entry_seq()[j]).id,
{
    let n = layout.items@.len();
    assert(views(r.entry_seq()).len() == r.entry_seq().len());
    assert forall|i: int| 0 <= i < n implies (#[trigger] r.entry_seq()[i])@ == item_view(
        layout.items@[i],
    ) by {
        assert(views(r.entry_seq())[i] == r.entry_seq()[i]@);
        assert(registry_spec(layout, listings)[i] == item_view(layout.items@[i]));
    }
}

/// The entries found among ROM files take ids after every static id, and
/// strictly increasing among themselves.
pub proof fn rom_ids_follow_static(layout: MenuLayout, listings: Seq<RomListing>, r: Registry)
    requires
        r.wf(),
        views(r.entry_seq()) == registry_spec(layout, listings),
    ensures
        forall|i: int, j: int|
            0 <= i < layout.items@.len() <= j < r.entry_seq().len() ==> (
            #[trigger] r.entry_seq()[i]).id < (#[trigger] r.entry_seq()[j]).id,
        forall|i: int, j: int|
            layout.items@.len() <= i < j < r.entry_seq().len() ==> (
            #[trigger] r.entry_seq()[i]).id < (#[trigger] r.entry_seq()[j]).id,
{
}

/// Every file a system accepts carries one of the system's extensions.
pub proof fn accepted_extensions_allowed(files: Seq<RomFile>, exts: Seq<Seq<char>>)
    ensures
        forall|i: int|
            0 <= i < accepted_files(files, exts).len() ==> exts.contains(
                extension_spec(#[trigger] accepted_files(files, exts)[i].file_name@),
            ),
    decreases files.len(),
{
    if files.len() > 0 {
        accepted_extensions_allowed(files.drop_last(), exts);
        let rest = accepted_files(files.drop_last(), exts);
        let all = accepted_files(files, exts);
        assert forall|i: int| 0 <= i < all.len() implies exts.contains(
            extension_spec(#[trigger] all[i].file_name@),
        ) by {
            if i < rest.len() {
                assert(all[i] == rest[i]);
            }
        }
    }
}

/// What the systems contribute depends on the listings of those systems alone.
proof fn lemma_listing_prefix(s: Seq<System>, e: Seq<Emulator>, l: Seq<RomListing>)
    requires
        l.len() >= s.len(),
    ensures
        systems_spec(s, e, l) == systems_spec(s, e, l.subrange(0, s.len() as int)),
    decreases s.len(),
{
    if s.len() > 0 {
        let n = s.len() - 1;
        let lp = l.subrange(0, s.len() as int);
        lemma_listing_prefix(s.drop_last(), e, l);
        lemma_listing_prefix(s.drop_last(), e, lp);
        assert(lp.subrange(0, n) =~= l.subrange(0, n));
    }
}

/// A system that is not offered can be taken out of the configuration
/// without changing any entry.
proof fn lemma_unoffered_removable(s: Seq<System>, e: Seq<Emulator>, l: Seq<RomListing>, k: int)
    requires
        l.len() == s.len(),
        0 <= k < s.len(),
        !system_offered(s[k], e, l[k]),
    ensures
        systems_spec(s, e, l) == systems_spec(s.remove(k), e, l.remove(k)),
    decreases s.len(),
{
    let n = s.len() - 1;
    lemma_listing_prefix(s.drop_last(), e, l);
    if k == n {
        assert(s.remove(k) =~= s.drop_last());
        assert(l.remove(k) =~= l.subrange(0, n));
        assert(systems_spec(s, e, l) =~= systems_spec(s.drop_last(), e, l));
    } else {
        let s2 = s.remove(k);
        let l2 = l.remove(k);
        let lp = l.subrange(0, n);
        lemma_unoffered_removable(s.drop_last(), e, lp, k);
        assert(s2.drop_last() =~= s.drop_last().remove(k));
        assert(s2[n - 1] == s[n]);
        assert(l2[n - 1] == l[n]);
        lemma_listing_prefix(s2.drop_last(), e, l2);
        assert(l2.subrange(0, n - 1) =~= lp.remove(k));
    }
}

/// A system whose ROM directory is missing contributes no entry, and the
/// ids of all other entries are as if it were not configured.
pub proof fn missing_directory_contributes_nothing(
    layout: MenuLayout,
    listings: Seq<RomListing>,
    k: int,
)
    requires
        listings.len() == layout.systems@.len(),
        0 <= k < listings.len(),
        listings[k] is Missing,
    ensures
        system_spec(layout.systems@[k], layout.emulators@, listings[k]).len() == 0,
        registry_spec(layout, listings) == layout.items@.map_values(|it: MenuEntry| item_view(it))
            + systems_spec(layout.systems@.remove(k), layout.emulators@, listings.remove(k)),
{
    lemma_unoffered_removable(layout.systems@, layout.emulators@, listings, k);
}

/// A system that no emulator lists contributes no entry, whatever its
/// directory holds, and the ids of all other entries are as if it were not
/// configured.
pub proof fn unmatched_system_contributes_nothing(
    layout: MenuLayout,
    listings: Seq<RomListing>,
    k: int,
)
    requires
        listings.len() == layout.systems@.len(),
        0 <= k < listings.len(),
        emulator_index(layout.emulators@, layout.systems@[k].name@) < 0,
    ensures
        system_spec(layout.systems@[k], layout.emulators@, listings[k]).len() == 0,
        registry_spec(layout, listings) == layout.items@.map_values(|it: MenuEntry| item_view(it))
            + systems_spec(layout.systems@.remove(k), layout.emulators@, listings.remove(k)),
{
    lemma_unoffered_removable(layout.systems@, layout.emulators@, listings, k);
}

} // verus!

verus! {

/// The registry built from the built-in configuration, the one used when
/// loading fails, holds exactly the built-in static entries.
pub proof fn fallback_keeps_default_entries(
    layout: MenuLayout,
    listings: Seq<RomListing>,
    r: Registry,
)
    requires
        is_default_layout(layout),
        listings.len() == layout.systems@.len(),
        r.wf(),
        views(r.entry_seq()) == registry_spec(layout, listings),
    ensures
        r.entry_seq().len() == layout.items@.len(),
        r.entry_seq().len() > 0,
        forall|i: int|
            0 <= i < r.entry_seq().len() ==> (#[trigger] r.entry_seq()[i])@ == item_view(
                layout.items@[i],
            ) && r.entry_seq()[i].id == i,
{
    static_ids_increase(layout, listings, r);
    assert(views(r.entry_seq()).len() == r.entry_seq().len());
}

} // verus!

verus! {

/// Each entry a system contributes comes from one of its listed files whose
/// extension the system allows, in listing order.
pub proof fn discovered_entries_have_allowed_extensions(
    sys: System,
    emus: Seq<Emulator>,
    listing: RomListing,
)
    ensures
        !system_offered(sys, emus, listing) ==> system_spec(sys, emus, listing).len() == 0,
        system_offered(sys, emus, listing) ==> ({
            let exts = sys.file_extensions.deep_view();
            let acc = accepted_files(listing->Files_0@, exts);
            let emu = emus[emulator_index(emus, sys.name@)];
            &&& system_spec(sys, emus, listing).len() == acc.len()
            &&& forall|i: int|
                0 <= i < acc.len() ==> system_spec(sys, emus, listing)[i] == rom_view(
                    #[trigger] acc[i],
                    emu,
                ) && exts.contains(extension_spec(acc[i].file_name@))
        }),
{
    if system_offered(sys, emus, listing) {
        accepted_extensions_allowed(listing->Files_0@, sys.file_extensions.deep_view());
    }
}

} // verus!
