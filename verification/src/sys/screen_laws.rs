//! What a configuration of screens comes to, screen by screen.

use vstd::prelude::*;

use crate::search;
use crate::sys::geometry::{Arithmetic, CGFloat, CoordinateConverter};
use crate::sys::geometry_laws;
use crate::sys::screen;
use crate::sys::screen::{
    ActiveDisplay, CGError, CGScreenInfo, NSScreenExt, NSScreenInfo, NSScreenReport, ScreenCache,
    ScreenConfigError, ScreenId, ScreenInfo, System,
};
use crate::sys::space;
use crate::sys::space::SpaceId;

verus! {

/// A screen is known by the number it was made with.
pub proof fn law_screen_keeps_its_number(id: u32, r: ScreenId)
    requires
        call_ensures(ScreenId::new, (id,), r),
    ensures
        r.raw() == id,
{
}

/// A cache begins with its system and without displays.
pub proof fn law_new_cache_is_empty<S: System>(system: S, cache: ScreenCache<S>)
    requires
        call_ensures(ScreenCache::<S>::new_with, (system,), cache),
    ensures
        cache.system == system,
        cache.uuids@.len() == 0,
{
}

/// Both coordinates of a screen's origin are zero.
pub open spec fn begins_at_zero(info: CGScreenInfo) -> bool {
    &&& info.bounds.origin.x.bits == 0 || info.bounds.origin.x.bits == 0x8000_0000_0000_0000
    &&& info.bounds.origin.y.bits == 0 || info.bounds.origin.y.bits == 0x8000_0000_0000_0000
}

/// The screen at `main` leads the others: it is the first that begins at zero,
/// or else the first of all.
pub open spec fn leads(cg: Seq<CGScreenInfo>, main: int) -> bool {
    &&& 0 <= main < cg.len()
    &&& {
        ||| begins_at_zero(cg[main]) && forall|i: int|
            0 <= i < main ==> !begins_at_zero(#[trigger] cg[i])
        ||| main == 0 && forall|i: int| 0 <= i < cg.len() ==> !begins_at_zero(#[trigger] cg[i])
    }
}

/// The screen at a place once the one at `main` has changed places with the
/// first.
pub open spec fn placed(cg: Seq<CGScreenInfo>, main: int, i: int) -> CGScreenInfo {
    if i == 0 {
        cg[main]
    } else if i == main {
        cg[0]
    } else {
        cg[i]
    }
}

/// The main screen is the first that begins at zero.
pub proof fn law_main_screen_begins_at_zero(cg: &Vec<CGScreenInfo>, r: Option<usize>)
    requires
        call_ensures(screen::main_screen, (cg,), r),
    ensures
        match r {
            Some(main) => main < cg@.len() && begins_at_zero(cg@[main as int]) && forall|i: int|
                0 <= i < main ==> !begins_at_zero(#[trigger] cg@[i]),
            None => forall|i: int| 0 <= i < cg@.len() ==> !begins_at_zero(#[trigger] cg@[i]),
        },
{
    let p = screen::is_main();
    match r {
        Some(main) => {
            let k = choose|k: int| search::is_first_where(cg@, p, k);
            assert(search::is_first_where(cg@, p, main as int));
            assert(p(cg@[main as int]));
            assert forall|i: int| 0 <= i < main implies !begins_at_zero(#[trigger] cg@[i]) by {
                assert(!p(cg@[i]));
            }
        },
        None => {
            assert forall|i: int| 0 <= i < cg@.len() implies !begins_at_zero(#[trigger] cg@[i]) by {
                if p(cg@[i]) {
                    search::lemma_first_where_exists(cg@, p, i);
                }
            }
        },
    }
}

/// `j` is where AppKit first describes the screen with this id.
pub open spec fn is_first_description(ns: Seq<NSScreenInfo>, id: ScreenId, j: int) -> bool {
    &&& 0 <= j < ns.len()
    &&& ns[j].cg_id == id
    &&& forall|i: int| 0 <= i < j ==> (#[trigger] ns[i]).cg_id != id
}

/// Some description has this id.
pub open spec fn has_description(ns: Seq<NSScreenInfo>, id: ScreenId) -> bool {
    exists|j: int| 0 <= j < ns.len() && (#[trigger] ns[j]).cg_id == id
}

proof fn lemma_description(ns: Seq<NSScreenInfo>, info: CGScreenInfo)
    ensures
        screen::description_of(ns, info) is Some <==> has_description(ns, info.cg_id),
        screen::description_of(ns, info) is Some ==> exists|j: int|
            #[trigger] is_first_description(ns, info.cg_id, j) && ns[j]
                == screen::description_of(ns, info)->0,
{
    let p = screen::describes(info.cg_id);
    if has_description(ns, info.cg_id) {
        let j = choose|j: int| 0 <= j < ns.len() && (#[trigger] ns[j]).cg_id == info.cg_id;
        assert(p(ns[j]));
        search::lemma_first_where_exists(ns, p, j);
    }
    if screen::description_of(ns, info) is Some {
        let j = search::first_where(ns, p)->0;
        assert(search::is_first_where(ns, p, j));
        assert forall|i: int| 0 <= i < j implies (#[trigger] ns[i]).cg_id != info.cg_id by {
            assert(!p(ns[i]));
        }
        assert(p(ns[j]));
        assert(is_first_description(ns, info.cg_id, j));
    }
}

proof fn lemma_order(cg: Seq<CGScreenInfo>) -> (main: int)
    requires
        cg.len() > 0,
    ensures
        leads(cg, main),
        screen::main_first(cg).len() == cg.len(),
        forall|i: int|
            0 <= i < cg.len() ==> #[trigger] screen::main_first(cg)[i] == placed(cg, main, i),
{
    let p = screen::is_main();
    match search::first_where(cg, p) {
        Some(main) => {
            assert(search::is_first_where(cg, p, main));
            assert forall|i: int| 0 <= i < main implies !begins_at_zero(#[trigger] cg[i]) by {
                assert(!p(cg[i]));
            }
            main
        },
        None => {
            assert forall|i: int| 0 <= i < cg.len() implies !begins_at_zero(#[trigger] cg[i]) by {
                if p(cg[i]) {
                    search::lemma_first_where_exists(cg, p, i);
                }
            }
            0
        },
    }
}

/// `to` is the screen with this id as AppKit describes it, with its frame
/// converted at `height` and everything else as it is.
pub open spec fn comes_from<A: Arithmetic>(
    arith: &A,
    height: CGFloat,
    from: NSScreenInfo,
    to: ScreenInfo,
) -> bool {
    &&& to.id == from.cg_id
    &&& to.scale_factor == from.backing_scale_factor
    &&& geometry_laws::is_image(arith, height, from.visible_frame, to.visible_frame)
}

/// A configuration, put together out of the two lists.
///
/// `main` is the screen that leads, `places` are the places of the screens that
/// are returned, with that screen put first, and `sources` those of their
/// descriptions.
pub open spec fn is_put_together<S: System, A: Arithmetic>(
    system: S,
    ns: Seq<NSScreenInfo>,
    cg: Seq<CGScreenInfo>,
    arith: &A,
    uuids: Seq<String>,
    screens: Seq<ScreenInfo>,
    converter: CoordinateConverter,
    main: int,
    places: Seq<int>,
    sources: Seq<int>,
) -> bool {
    &&& leads(cg, main)
    &&& call_ensures(
        A::plus,
        (arith, cg[main].bounds.origin.y, cg[main].bounds.size.height),
        converter.screen_height,
    )
    &&& screens.len() == places.len()
    &&& sources.len() == places.len()
    &&& uuids.len() == places.len()
    &&& forall|k: int, l: int|
        0 <= k < l < places.len() ==> #[trigger] places[k] < #[trigger] places[l]
    &&& forall|i: int|
        0 <= i < cg.len() && has_description(ns, (#[trigger] placed(cg, main, i)).cg_id)
            ==> places.contains(i)
    &&& forall|k: int|
        0 <= k < places.len() ==> {
            &&& 0 <= #[trigger] places[k] < cg.len()
            &&& is_first_description(ns, placed(cg, main, places[k]).cg_id, sources[k])
            &&& comes_from(arith, converter.screen_height, ns[sources[k]], screens[k])
            &&& call_ensures(
                S::uuid_for_rect,
                (&system, placed(cg, main, places[k]).bounds),
                uuids[k],
            )
        }
}

proof fn lemma_put_together<S: System, A: Arithmetic>(
    before: ScreenCache<S>,
    ns: Seq<NSScreenInfo>,
    cg: Seq<CGScreenInfo>,
    arith: &A,
    after: ScreenCache<S>,
    screens: Vec<ScreenInfo>,
    converter: CoordinateConverter,
) -> (found: (int, Seq<int>, Seq<int>))
    requires
        ScreenCache::applied(before, ns, cg, arith, after, Ok(Some((screens, converter)))),
        cg.len() > 0,
    ensures
        is_put_together(
            before.system,
            ns,
            cg,
            arith,
            after.uuids@,
            screens@,
            converter,
            found.0,
            found.1,
            found.2,
        ),
{
    let main = lemma_order(cg);
    let order = screen::main_first(cg);
    let p = screen::is_described(ns);
    let places = search::lemma_filter_places(order, p);
    let shown = screen::described_screens(ns, order);
    let described = screen::descriptions_of(ns, order);
    screen::lemma_descriptions_follow_screens(ns, order);
    let sources = Seq::new(
        places.len(),
        |k: int|
            choose|j: int|
                #[trigger] is_first_description(ns, placed(cg, main, places[k]).cg_id, j) && ns[j]
                    == described[k],
    );
    assert(order[0] == placed(cg, main, 0));
    assert forall|i: int|
        0 <= i < cg.len() && has_description(
            ns,
            (#[trigger] placed(cg, main, i)).cg_id,
        ) implies places.contains(i) by {
        assert(order[i] == placed(cg, main, i));
        lemma_description(ns, order[i]);
        assert(p(order[i]));
    }
    assert forall|k: int| 0 <= k < places.len() implies {
        &&& 0 <= #[trigger] places[k] < cg.len()
        &&& is_first_description(ns, placed(cg, main, places[k]).cg_id, sources[k])
        &&& comes_from(arith, converter.screen_height, ns[sources[k]], screens@[k])
        &&& call_ensures(
            S::uuid_for_rect,
            (&before.system, placed(cg, main, places[k]).bounds),
            after.uuids@[k],
        )
    } by {
        let info = order[places[k]];
        assert(info == placed(cg, main, places[k]));
        assert(shown[k] == info);
        lemma_description(ns, info);
        assert(Some(described[k]) == screen::description_of(ns, shown[k]));
        let j = choose|j: int|
            #[trigger] is_first_description(ns, info.cg_id, j) && ns[j] == described[k];
        assert(is_first_description(ns, info.cg_id, j));
        assert(screen::converts_screen(converter, arith, described[k], screens@[k]));
        geometry_laws::lemma_flipped_rect_is_image(
            converter,
            arith,
            described[k].visible_frame,
            screens@[k].visible_frame,
        );
    }
    (main, places, sources)
}

/// The screens of a configuration are all that both lists know, the leading one
/// first and each once for its place. Each has the id that both lists give it,
/// the scale factor that AppKit gives it, and its visible frame converted at
/// the lower edge of the leading screen. The cache holds the display of each.
pub proof fn law_screens_of_a_configuration<S: System, A: Arithmetic>(
    cache: &mut ScreenCache<S>,
    ns: Vec<NSScreenInfo>,
    cg: Vec<CGScreenInfo>,
    arith: &A,
    screens: Vec<ScreenInfo>,
    converter: CoordinateConverter,
)
    requires
        call_ensures(
            ScreenCache::<S>::apply_screen_config::<A>,
            (cache, ns, cg, arith),
            Ok(Some((screens, converter))),
        ),
        cg@.len() > 0,
    ensures
        final(cache).system == old(cache).system,
        exists|main: int, places: Seq<int>, sources: Seq<int>| #[trigger]
            is_put_together(
                old(cache).system,
                ns@,
                cg@,
                arith,
                final(cache).uuids@,
                screens@,
                converter,
                main,
                places,
                sources,
            ),
{
    let found = lemma_put_together(
        *old(cache),
        ns@,
        cg@,
        arith,
        *final(cache),
        screens,
        converter,
    );
    assert(is_put_together(
        old(cache).system,
        ns@,
        cg@,
        arith,
        final(cache).uuids@,
        screens@,
        converter,
        found.0,
        found.1,
        found.2,
    ));
}

/// No frame can be converted, but one should be: the leading screen has a NaN
/// for its lower edge, and some screen has a description.
pub open spec fn cannot_convert<A: Arithmetic>(
    ns: Seq<NSScreenInfo>,
    cg: Seq<CGScreenInfo>,
    arith: &A,
) -> bool {
    &&& exists|i: int| 0 <= i < cg.len() && has_description(ns, (#[trigger] cg[i]).cg_id)
    &&& exists|main: int, height: CGFloat| #[trigger]
        leads(cg, main) && geometry_laws::has_nan_bits(height) && #[trigger] call_ensures(
            A::plus,
            (arith, cg[main].bounds.origin.y, cg[main].bounds.size.height),
            height,
        )
}

/// Which outcome two lists of screens have. Lists of different length are
/// passed over and leave the cache alone; empty ones give nothing, convert
/// nothing and empty it; and the one error is that no frame can be converted.
pub open spec fn has_outcome<S: System, A: Arithmetic>(
    before: ScreenCache<S>,
    ns: Seq<NSScreenInfo>,
    cg: Seq<CGScreenInfo>,
    arith: &A,
    after: ScreenCache<S>,
    r: Result<screen::ScreenConfig, ScreenConfigError>,
) -> bool {
    &&& after.system == before.system
    &&& (ns.len() != cg.len() <==> r is Ok && r->Ok_0 is None)
    &&& ns.len() != cg.len() ==> after == before
    &&& ns.len() == 0 && cg.len() == 0 ==> {
        &&& r is Ok
        &&& (r->Ok_0->0).0@.len() == 0
        &&& geometry_laws::has_nan_bits((r->Ok_0->0).1.screen_height)
        &&& after.uuids@.len() == 0
    }
    &&& r is Err ==> r->Err_0 == ScreenConfigError::HeightNotANumber && cannot_convert(
        ns,
        cg,
        arith,
    )
    &&& r is Ok && r->Ok_0 is Some && (r->Ok_0->0).0@.len() > 0 ==> !geometry_laws::has_nan_bits(
        (r->Ok_0->0).1.screen_height,
    )
}

proof fn lemma_outcome<S: System, A: Arithmetic>(
    before: ScreenCache<S>,
    ns: Seq<NSScreenInfo>,
    cg: Seq<CGScreenInfo>,
    arith: &A,
    after: ScreenCache<S>,
    r: Result<screen::ScreenConfig, ScreenConfigError>,
)
    requires
        ScreenCache::applied(before, ns, cg, arith, after, r),
    ensures
        has_outcome(before, ns, cg, arith, after, r),
{
    let order = screen::main_first(cg);
    if r is Ok && r->Ok_0 is Some {
        geometry_laws::lemma_nan_bits((r->Ok_0->0).1.screen_height);
    }
    if r is Err {
        let main = lemma_order(cg);
        assert(order[0] == placed(cg, main, 0));
        let height = choose|height: CGFloat| #[trigger]
            screen::is_height(arith, order[0], height) && height.nan();
        geometry_laws::lemma_nan_bits(height);
        assert(leads(cg, main) && call_ensures(
            A::plus,
            (arith, cg[main].bounds.origin.y, cg[main].bounds.size.height),
            height,
        ));
        screen::lemma_descriptions_follow_screens(ns, order);
        let places = search::lemma_filter_places(order, screen::is_described(ns));
        let k = places[0];
        lemma_description(ns, order[k]);
        assert(screen::is_described(ns)(order[k]));
        assert(order[k] == placed(cg, main, k));
        let i = if k == 0 {
            main
        } else if k == main {
            0
        } else {
            k
        };
        assert(cg[i].cg_id == order[k].cg_id);
    }
}

/// A configuration fails, or is passed over, exactly as its lists say.
pub proof fn law_outcome_of_a_configuration<S: System, A: Arithmetic>(
    cache: &mut ScreenCache<S>,
    ns: Vec<NSScreenInfo>,
    cg: Vec<CGScreenInfo>,
    arith: &A,
    r: Result<screen::ScreenConfig, ScreenConfigError>,
)
    requires
        call_ensures(ScreenCache::<S>::apply_screen_config::<A>, (cache, ns, cg, arith), r),
    ensures
        has_outcome(*old(cache), ns@, cg@, arith, *final(cache), r),
{
    lemma_outcome(*old(cache), ns@, cg@, arith, *final(cache), r);
}

/// What an update comes to, given the system's reply. If the list of screens
/// could not be had, the error is the system's and the cache stays; otherwise
/// the list makes the configuration.
pub open spec fn follows_reply<S: System, A: Arithmetic>(
    before: ScreenCache<S>,
    ns: Seq<NSScreenInfo>,
    arith: &A,
    after: ScreenCache<S>,
    r: Result<screen::ScreenConfig, ScreenConfigError>,
    reply: Result<Vec<CGScreenInfo>, CGError>,
) -> bool {
    match reply {
        Err(e) => {
            &&& r is Err
            &&& r->Err_0 == ScreenConfigError::ScreenList(e)
            &&& after == before
        },
        Ok(cg) => {
            &&& has_outcome(before, ns, cg@, arith, after, r)
            &&& cg@.len() > 0 && r is Ok && r->Ok_0 is Some ==> exists|
                main: int,
                places: Seq<int>,
                sources: Seq<int>,
            | #[trigger]
                is_put_together(
                    before.system,
                    ns,
                    cg@,
                    arith,
                    after.uuids@,
                    (r->Ok_0->0).0@,
                    (r->Ok_0->0).1,
                    main,
                    places,
                    sources,
                )
        },
    }
}

/// An update asks the system once and goes by its reply.
pub proof fn law_update_follows_the_reply<S: System, A: Arithmetic>(
    cache: &mut ScreenCache<S>,
    ns: Vec<NSScreenInfo>,
    arith: &A,
    r: Result<screen::ScreenConfig, ScreenConfigError>,
)
    requires
        call_ensures(ScreenCache::<S>::update_screen_config::<A>, (cache, ns, arith), r),
    ensures
        exists|reply: Result<Vec<CGScreenInfo>, CGError>| #[trigger]
            call_ensures(S::cg_screens, (&old(cache).system,), reply) && follows_reply(
                *old(cache),
                ns@,
                arith,
                *final(cache),
                r,
                reply,
            ),
{
    let reply = choose|reply: Result<Vec<CGScreenInfo>, CGError>| #[trigger]
        call_ensures(S::cg_screens, (&old(cache).system,), reply) && match reply {
            Ok(cg) => ScreenCache::applied(*old(cache), ns@, cg@, arith, *final(cache), r),
            Err(e) => {
                &&& r == Err::<screen::ScreenConfig, ScreenConfigError>(
                    ScreenConfigError::ScreenList(e),
                )
                &&& *final(cache) == *old(cache)
            },
        };
    if let Ok(cg) = reply {
        lemma_outcome(*old(cache), ns@, cg@, arith, *final(cache), r);
        if cg@.len() > 0 && r is Ok && r->Ok_0 is Some {
            let (screens, converter) = r->Ok_0->0;
            let found = lemma_put_together(
                *old(cache),
                ns@,
                cg@,
                arith,
                *final(cache),
                screens,
                converter,
            );
            assert(is_put_together(
                old(cache).system,
                ns@,
                cg@,
                arith,
                final(cache).uuids@,
                screens@,
                converter,
                found.0,
                found.1,
                found.2,
            ));
        }
    }
    assert(follows_reply(*old(cache), ns@, arith, *final(cache), r, reply));
}

/// There is one space for each display of the cache: the one whose number the
/// system gives for it, or none for the number zero.
pub proof fn law_spaces_of_the_displays<S: System>(
    cache: &ScreenCache<S>,
    spaces: Vec<Option<SpaceId>>,
    i: int,
) -> (id: u64)
    requires
        call_ensures(ScreenCache::<S>::get_screen_spaces, (cache,), spaces),
        0 <= i < cache.uuids@.len(),
    ensures
        spaces@.len() == cache.uuids@.len(),
        call_ensures(S::current_space, (&cache.system, &cache.uuids@[i]), id),
        spaces@[i] is None <==> id == 0,
        spaces@[i] is Some ==> spaces@[i]->0.raw() == id,
{
    assert(screen::shows(&cache.system, cache.uuids@[i], spaces@[i]));
    let id = choose|id: u64|
        call_ensures(S::current_space, (&cache.system, &cache.uuids@[i]), id) && spaces@[i]
            == #[trigger] space::space_of(id);
    space::law_numbers_identify_spaces(id, SpaceId::of(id));
    id
}

/// There are as many spaces as displays, none for none.
pub proof fn law_as_many_spaces_as_displays<S: System>(
    cache: &ScreenCache<S>,
    spaces: Vec<Option<SpaceId>>,
)
    requires
        call_ensures(ScreenCache::<S>::get_screen_spaces, (cache,), spaces),
    ensures
        spaces@.len() == cache.uuids@.len(),
{
}

/// A screen that reports a number has that number, and any other has none.
pub proof fn law_number_of_a_report(report: &NSScreenReport, r: Result<ScreenId, ()>)
    requires
        call_ensures(<NSScreenReport as NSScreenExt>::get_number, (report,), r),
    ensures
        r is Ok <==> report.number is Some,
        r is Ok ==> r->Ok_0.raw() == report.number->0,
{
    if report.number is Some {
        let number = report.number->0;
        screen::law_numbers_identify_screens(number, ScreenId::of(number));
    }
}

/// The screens that AppKit reports with a number are all taken over, in their
/// order and as they are. `places` says where they stand.
pub proof fn law_numbered_screens_are_taken_over(
    reports: &Vec<NSScreenReport>,
    screens: Vec<NSScreenInfo>,
) -> (places: Seq<int>)
    requires
        call_ensures(screen::get_ns_screens, (reports,), screens),
    ensures
        places.len() == screens@.len(),
        forall|k: int, l: int|
            0 <= k < l < places.len() ==> #[trigger] places[k] < #[trigger] places[l],
        forall|k: int|
            0 <= k < places.len() ==> {
                let report = reports@[places[k]];
                &&& 0 <= #[trigger] places[k] < reports@.len()
                &&& report.number is Some
                &&& screens@[k].cg_id.raw() == report.number->0
                &&& screens@[k].frame == report.frame
                &&& screens@[k].visible_frame == report.visible_frame
                &&& screens@[k].backing_scale_factor == report.backing_scale_factor
            },
        forall|i: int|
            0 <= i < reports@.len() && (#[trigger] reports@[i]).number is Some ==> places.contains(
                i,
            ),
{
    let f = |report: NSScreenReport| screen::info_of(report);
    let places = search::lemma_filter_map_places(reports@, f);
    assert forall|k: int| 0 <= k < places.len() implies {
        let report = reports@[places[k]];
        &&& 0 <= #[trigger] places[k] < reports@.len()
        &&& report.number is Some
        &&& screens@[k].cg_id.raw() == report.number->0
        &&& screens@[k].frame == report.frame
        &&& screens@[k].visible_frame == report.visible_frame
        &&& screens@[k].backing_scale_factor == report.backing_scale_factor
    } by {
        let report = reports@[places[k]];
        assert(f(report) == Some(screens@[k]));
        let number = report.number->0;
        screen::law_numbers_identify_screens(number, ScreenId::of(number));
    }
    assert forall|i: int|
        0 <= i < reports@.len() && (
        #[trigger] reports@[i]).number is Some implies places.contains(i) by {
        assert(f(reports@[i]) is Some);
    }
    places
}

/// The screens that AppKit does not describe are all named, in their order.
/// `places` says where they stand.
pub proof fn law_undescribed_screens_are_named(
    ns: &Vec<NSScreenInfo>,
    cg: &Vec<CGScreenInfo>,
    r: Vec<ScreenId>,
) -> (places: Seq<int>)
    requires
        call_ensures(screen::undescribed_screens, (ns, cg), r),
    ensures
        places.len() == r@.len(),
        forall|k: int, l: int|
            0 <= k < l < places.len() ==> #[trigger] places[k] < #[trigger] places[l],
        forall|k: int|
            0 <= k < places.len() ==> 0 <= #[trigger] places[k] < cg@.len() && r@[k]
                == cg@[places[k]].cg_id && !has_description(ns@, r@[k]),
        forall|i: int|
            0 <= i < cg@.len() && !has_description(ns@, (#[trigger] cg@[i]).cg_id)
                ==> places.contains(i),
{
    let f = |info: CGScreenInfo| screen::undescribed_id(ns@, info);
    let places = search::lemma_filter_map_places(cg@, f);
    assert forall|k: int| 0 <= k < places.len() implies 0 <= #[trigger] places[k] < cg@.len()
        && r@[k] == cg@[places[k]].cg_id && !has_description(ns@, r@[k]) by {
        assert(f(cg@[places[k]]) == Some(r@[k]));
        lemma_description(ns@, cg@[places[k]]);
    }
    assert forall|i: int|
        0 <= i < cg@.len() && !has_description(
            ns@,
            (#[trigger] cg@[i]).cg_id,
        ) implies places.contains(i) by {
        lemma_description(ns@, cg@[i]);
        assert(f(cg@[i]) is Some);
    }
    places
}

/// The main display is the first that says so, by anything but zero.
pub proof fn law_main_display_says_so(displays: &Vec<ActiveDisplay>, r: Option<u32>) -> (at: int)
    requires
        call_ensures(screen::main_display, (displays,), r),
    ensures
        r is Some ==> {
            &&& 0 <= at < displays@.len()
            &&& displays@[at].id == r->0
            &&& displays@[at].is_main != 0
            &&& forall|i: int| 0 <= i < at ==> (#[trigger] displays@[i]).is_main == 0
        },
        r is None ==> forall|i: int|
            0 <= i < displays@.len() ==> (#[trigger] displays@[i]).is_main == 0,
{
    let p = screen::reports_main();
    match search::first_where(displays@, p) {
        Some(at) => {
            assert(search::is_first_where(displays@, p, at));
            assert forall|i: int| 0 <= i < at implies (#[trigger] displays@[i]).is_main == 0 by {
                assert(!p(displays@[i]));
            }
            at
        },
        None => {
            assert forall|i: int| 0 <= i < displays@.len() implies (
            #[trigger] displays@[i]).is_main == 0 by {
                if p(displays@[i]) {
                    search::lemma_first_where_exists(displays@, p, i);
                }
            }
            0
        },
    }
}

/// `==` on screens compares the id, and the measures as numbers.
pub proof fn law_equal_screens(a: &ScreenInfo, b: &ScreenInfo, r: bool)
    requires
        call_ensures(<ScreenInfo as PartialEq>::eq, (a, b), r),
    ensures
        r <==> {
            let f = a.visible_frame;
            let g = b.visible_frame;
            &&& a.id == b.id
            &&& geometry_laws::same_number(a.scale_factor, b.scale_factor)
            &&& geometry_laws::same_number(f.origin.x, g.origin.x)
            &&& geometry_laws::same_number(f.origin.y, g.origin.y)
            &&& geometry_laws::same_number(f.size.width, g.size.width)
            &&& geometry_laws::same_number(f.size.height, g.size.height)
        },
{
    let f = a.visible_frame;
    let g = b.visible_frame;
    geometry_laws::lemma_same_numbers(a.scale_factor, b.scale_factor);
    geometry_laws::lemma_same_numbers(f.origin.x, g.origin.x);
    geometry_laws::lemma_same_numbers(f.origin.y, g.origin.y);
    geometry_laws::lemma_same_numbers(f.size.width, g.size.width);
    geometry_laws::lemma_same_numbers(f.size.height, g.size.height);
}

} // verus!
