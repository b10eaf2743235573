//! The screens that are attached, and what each of them shows.

use vstd::prelude::*;

use crate::search;
use crate::sys::geometry;
use crate::sys::geometry::{Arithmetic, CGFloat, CGRect, CoordinateConverter};
use crate::sys::space;
use crate::sys::space::SpaceId;

verus! {

/// Identifies a screen.
#[derive(PartialEq, Eq, Structural, PartialOrd, Ord, Hash, Debug, Clone, Copy)]
pub struct ScreenId {
    id: u32,
}

impl ScreenId {
    /// The window server's number for this screen.
    pub closed spec fn raw(self) -> u32 {
        self.id
    }

    /// The screen with this number.
    pub closed spec fn of(id: u32) -> ScreenId {
        ScreenId { id }
    }

    /// The id of the screen with this number.
    pub fn new(id: u32) -> (screen: ScreenId)
        ensures
            screen == ScreenId::of(id),
            screen.raw() == id,
    {
        ScreenId { id }
    }
}

/// Screens and their numbers correspond one to one.
pub proof fn law_numbers_identify_screens(id: u32, screen: ScreenId)
    ensures
        ScreenId::of(id).raw() == id,
        ScreenId::of(screen.raw()) == screen,
{
}

/// A screen as Core Graphics describes it, in Quartz coordinates.
#[derive(Debug, Clone, Copy)]
pub struct CGScreenInfo {
    pub cg_id: ScreenId,
    pub bounds: CGRect,
}

/// A screen as AppKit describes it, in Cocoa coordinates.
#[derive(Debug, Clone, Copy)]
pub struct NSScreenInfo {
    pub frame: CGRect,
    pub visible_frame: CGRect,
    pub cg_id: ScreenId,
    pub backing_scale_factor: CGFloat,
}

/// A usable screen, in Quartz coordinates.
#[derive(Debug, Clone, Copy)]
pub struct ScreenInfo {
    pub visible_frame: CGRect,
    pub id: ScreenId,
    pub scale_factor: CGFloat,
}

impl ScreenInfo {
    /// The same screen with the same frame and scale, by their numbers.
    pub open spec fn equals(self, other: ScreenInfo) -> bool {
        &&& self.visible_frame.equals(other.visible_frame)
        &&& self.id == other.id
        &&& self.scale_factor.equals(other.scale_factor)
    }
}

impl PartialEq for ScreenInfo {
    fn eq(&self, other: &ScreenInfo) -> (r: bool) {
        self.visible_frame == other.visible_frame && self.id == other.id && self.scale_factor
            == other.scale_factor
    }
}

impl vstd::std_specs::cmp::PartialEqSpecImpl for ScreenInfo {
    open spec fn obeys_eq_spec() -> bool {
        true
    }

    open spec fn eq_spec(&self, other: &ScreenInfo) -> bool {
        self.equals(*other)
    }
}

/// The number of a Core Graphics error. Zero is success.
pub type CGError = i32;

/// Why a screen configuration could not be worked out.
#[derive(Debug, Clone, Copy, PartialEq, Eq, Structural)]
pub enum ScreenConfigError {
    /// The list of screens could not be had.
    ScreenList(CGError),
    /// The height of the main screen is not a number, so that no frame can be
    /// converted.
    HeightNotANumber,
}

/// The system that screens belong to.
///
/// Nothing is assumed of its answers. Contracts say which question an answer
/// was given to, and no more.
pub trait System {
    /// The active screens.
    fn cg_screens(&self) -> Result<Vec<CGScreenInfo>, CGError>;

    /// The window server's name for the display that shows most of `rect`.
    fn uuid_for_rect(&self, rect: CGRect) -> String;

    /// The number of the space that a display shows, or zero.
    fn current_space(&self, uuid: &String) -> u64;
}

/// Calculates the screen and space configuration.
pub struct ScreenCache<S: System> {
    pub system: S,
    /// The displays of the screens that the last configuration returned, in
    /// their order.
    pub uuids: Vec<String>,
}

/// The screens whose bounds begin at the origin.
pub open spec fn is_main() -> spec_fn(CGScreenInfo) -> bool {
    |screen: CGScreenInfo| screen.bounds.origin.at_origin()
}

/// The AppKit descriptions of one screen.
pub open spec fn describes(id: ScreenId) -> spec_fn(NSScreenInfo) -> bool {
    |screen: NSScreenInfo| screen.cg_id == id
}

/// `screens` with the main screen first: it changes places with the screen
/// that stood there. Without a main screen the order stays.
pub open spec fn main_first(screens: Seq<CGScreenInfo>) -> Seq<CGScreenInfo> {
    match search::first_where(screens, is_main()) {
        Some(i) => screens.update(0, screens[i]).update(i, screens[0]),
        None => screens,
    }
}

/// The first AppKit description of a screen, if there is one.
pub open spec fn description_of(
    ns_screens: Seq<NSScreenInfo>,
    screen: CGScreenInfo,
) -> Option<NSScreenInfo> {
    match search::first_where(ns_screens, describes(screen.cg_id)) {
        Some(i) => Some(ns_screens[i]),
        None => None,
    }
}

/// The screens that AppKit describes.
pub open spec fn is_described(ns_screens: Seq<NSScreenInfo>) -> spec_fn(CGScreenInfo) -> bool {
    |screen: CGScreenInfo| description_of(ns_screens, screen) is Some
}

/// Those of `screens` that AppKit describes, in the order of `screens`.
pub open spec fn described_screens(
    ns_screens: Seq<NSScreenInfo>,
    screens: Seq<CGScreenInfo>,
) -> Seq<CGScreenInfo> {
    screens.filter(is_described(ns_screens))
}

/// The AppKit descriptions of `screens`, in the order of `screens`. A screen
/// that has none is left out.
pub open spec fn descriptions_of(
    ns_screens: Seq<NSScreenInfo>,
    screens: Seq<CGScreenInfo>,
) -> Seq<NSScreenInfo> {
    screens.filter_map(|screen: CGScreenInfo| description_of(ns_screens, screen))
}

/// `to` is `from` in Quartz coordinates.
pub open spec fn converts_screen<A: Arithmetic>(
    converter: CoordinateConverter,
    arith: &A,
    from: NSScreenInfo,
    to: ScreenInfo,
) -> bool {
    &&& to.id == from.cg_id
    &&& to.scale_factor == from.backing_scale_factor
    &&& converter.flips_rect(arith, from.visible_frame, to.visible_frame)
}

/// `to` is `from` in Quartz coordinates, screen by screen.
pub open spec fn converts_screens<A: Arithmetic>(
    converter: CoordinateConverter,
    arith: &A,
    from: Seq<NSScreenInfo>,
    to: Seq<ScreenInfo>,
) -> bool {
    &&& to.len() == from.len()
    &&& forall|i: int|
        0 <= i < to.len() ==> converts_screen(converter, arith, #[trigger] from[i], to[i])
}

/// `height` is the lower edge of `screen`.
pub open spec fn is_height<A: Arithmetic>(arith: &A, screen: CGScreenInfo, height: CGFloat) -> bool {
    geometry::is_sum(arith, screen.bounds.origin.y, screen.bounds.size.height, height)
}

/// `uuids` are the names that `system` gives for the displays of `screens`.
pub open spec fn names_displays<S: System>(
    system: &S,
    screens: Seq<CGScreenInfo>,
    uuids: Seq<String>,
) -> bool {
    &&& uuids.len() == screens.len()
    &&& forall|i: int|
        0 <= i < uuids.len() ==> call_ensures(
            S::uuid_for_rect,
            (system, (#[trigger] screens[i]).bounds),
            uuids[i],
        )
}

/// `space` is what the number stands for that `system` gives for the display
/// with this name.
pub open spec fn shows<S: System>(system: &S, uuid: String, space: Option<SpaceId>) -> bool {
    exists|id: u64|
        call_ensures(S::current_space, (system, &uuid), id) && space == #[trigger] space::space_of(
            id,
        )
}

/// What becomes of a new configuration: nothing, if it is passed over.
pub type ScreenConfig = Option<(Vec<ScreenInfo>, CoordinateConverter)>;

/// The place of the main screen, if there is one.
pub fn main_screen(screens: &Vec<CGScreenInfo>) -> (r: Option<usize>)
    ensures
        match r {
            Some(i) => search::first_where(screens@, is_main()) == Some(i as int) && i
                < screens@.len(),
            None => search::first_where(screens@, is_main()) is None,
        },
{
    let ghost p = is_main();
    let mut i: usize = 0;
    while i < screens.len()
        invariant
            p == is_main(),
            i <= screens@.len(),
            forall|j: int| 0 <= j < i ==> !p(#[trigger] screens@[j]),
        decreases screens@.len() - i,
    {
        if screens[i].bounds.origin.is_origin() {
            proof {
                search::lemma_first_where_is(screens@, p, i as int);
            }
            return Some(i);
        }
        i += 1;
    }
    None
}

/// The first AppKit description of a screen.
fn find_description(ns_screens: &Vec<NSScreenInfo>, screen: CGScreenInfo) -> (r: Option<
    NSScreenInfo,
>)
    ensures
        r == description_of(ns_screens@, screen),
        r matches Some(found) ==> found.cg_id == screen.cg_id,
{
    let ghost p = describes(screen.cg_id);
    let mut i: usize = 0;
    while i < ns_screens.len()
        invariant
            p == describes(screen.cg_id),
            i <= ns_screens@.len(),
            forall|j: int| 0 <= j < i ==> !p(#[trigger] ns_screens@[j]),
        decreases ns_screens@.len() - i,
    {
        if ns_screens[i].cg_id == screen.cg_id {
            proof {
                search::lemma_first_where_is(ns_screens@, p, i as int);
            }
            return Some(ns_screens[i]);
        }
        i += 1;
    }
    None
}

/// The screens that AppKit describes, and their descriptions in the same order.
fn describe(ns_screens: &Vec<NSScreenInfo>, screens: &Vec<CGScreenInfo>) -> (r: (
    Vec<CGScreenInfo>,
    Vec<NSScreenInfo>,
))
    ensures
        r.0@ == described_screens(ns_screens@, screens@),
        r.1@ == descriptions_of(ns_screens@, screens@),
{
    let ghost f = |screen: CGScreenInfo| description_of(ns_screens@, screen);
    let ghost p = is_described(ns_screens@);
    let mut shown: Vec<CGScreenInfo> = Vec::new();
    let mut described: Vec<NSScreenInfo> = Vec::new();
    let mut i: usize = 0;
    proof {
        reveal(Seq::filter);
    }
    while i < screens.len()
        invariant
            i <= screens@.len(),
            f == |screen: CGScreenInfo| description_of(ns_screens@, screen),
            p == is_described(ns_screens@),
            shown@ == screens@.take(i as int).filter(p),
            described@ == screens@.take(i as int).filter_map(f),
        decreases screens@.len() - i,
    {
        proof {
            reveal(Seq::filter);
            screens@.lemma_filter_map_take_succ(f, i as int);
            assert(screens@.take(i + 1).drop_last() =~= screens@.take(i as int));
        }
        if let Some(ns_screen) = find_description(ns_screens, screens[i]) {
            shown.push(screens[i]);
            described.push(ns_screen);
        }
        i += 1;
    }
    assert(screens@.take(screens@.len() as int) =~= screens@);
    (shown, described)
}

/// The id of a screen, if AppKit does not describe it.
pub open spec fn undescribed_id(ns_screens: Seq<NSScreenInfo>, screen: CGScreenInfo) -> Option<
    ScreenId,
> {
    if description_of(ns_screens, screen) is None {
        Some(screen.cg_id)
    } else {
        None
    }
}

/// The screens that AppKit does not describe, in order.
pub fn undescribed_screens(ns_screens: &Vec<NSScreenInfo>, screens: &Vec<CGScreenInfo>) -> (r: Vec<
    ScreenId,
>)
    ensures
        r@ == screens@.filter_map(|screen: CGScreenInfo| undescribed_id(ns_screens@, screen)),
{
    let ghost f = |screen: CGScreenInfo| undescribed_id(ns_screens@, screen);
    let mut r: Vec<ScreenId> = Vec::new();
    let mut i: usize = 0;
    while i < screens.len()
        invariant
            i <= screens@.len(),
            f == |screen: CGScreenInfo| undescribed_id(ns_screens@, screen),
            r@ == screens@.take(i as int).filter_map(f),
        decreases screens@.len() - i,
    {
        proof {
            screens@.lemma_filter_map_take_succ(f, i as int);
        }
        if find_description(ns_screens, screens[i]).is_none() {
            r.push(screens[i].cg_id);
        }
        i += 1;
    }
    assert(screens@.take(screens@.len() as int) =~= screens@);
    r
}

/// Converts every screen, unless there is one and the converter cannot.
fn convert_screens<A: Arithmetic>(
    converter: &CoordinateConverter,
    from: &Vec<NSScreenInfo>,
    arith: &A,
) -> (r: Option<Vec<ScreenInfo>>)
    ensures
        match r {
            Some(screens) => {
                &&& from@.len() == 0 || converter.converts()
                &&& converts_screens(*converter, arith, from@, screens@)
            },
            None => from@.len() > 0 && !converter.converts(),
        },
{
    let mut screens: Vec<ScreenInfo> = Vec::new();
    let mut i: usize = 0;
    while i < from.len()
        invariant
            i <= from@.len(),
            i > 0 ==> converter.converts(),
            screens@.len() == i,
            forall|j: int|
                0 <= j < i ==> converts_screen(
                    *converter,
                    arith,
                    #[trigger] from@[j],
                    screens@[j],
                ),
        decreases from@.len() - i,
    {
        let visible_frame = match converter.convert_rect(from[i].visible_frame, arith) {
            Some(visible_frame) => visible_frame,
            None => {
                return None;
            },
        };
        screens.push(
            ScreenInfo {
                visible_frame,
                id: from[i].cg_id,
                scale_factor: from[i].backing_scale_factor,
            },
        );
        i += 1;
    }
    Some(screens)
}

/// Asks `system` for the displays of screens.
fn name_displays<S: System>(system: &S, screens: &Vec<CGScreenInfo>) -> (uuids: Vec<String>)
    ensures
        names_displays(system, screens@, uuids@),
{
    let mut uuids: Vec<String> = Vec::new();
    let mut i: usize = 0;
    while i < screens.len()
        invariant
            i <= screens@.len(),
            uuids@.len() == i,
            forall|j: int|
                0 <= j < i ==> call_ensures(
                    S::uuid_for_rect,
                    (system, (#[trigger] screens@[j]).bounds),
                    uuids@[j],
                ),
        decreases screens@.len() - i,
    {
        let uuid = system.uuid_for_rect(screens[i].bounds);
        uuids.push(uuid);
        i += 1;
    }
    uuids
}

impl<S: System> ScreenCache<S> {
    /// A cache that knows of no display yet.
    pub fn new_with(system: S) -> (cache: ScreenCache<S>)
        ensures
            cache.system == system,
            cache.uuids@.len() == 0,
    {
        ScreenCache { system, uuids: Vec::new() }
    }

    /// What a list of screens makes of a cache.
    ///
    /// A list that does not go with AppKit's is passed over and leaves the cache
    /// alone. Otherwise the screens that AppKit describes are returned, main
    /// screen first, with their frames converted at the lower edge of the first
    /// screen in the list, and the cache holds their displays in the same
    /// order. An empty list gives no screens, and no displays either.
    pub open spec fn applied<A: Arithmetic>(
        before: Self,
        ns_screens: Seq<NSScreenInfo>,
        cg_screens: Seq<CGScreenInfo>,
        arith: &A,
        after: Self,
        r: Result<ScreenConfig, ScreenConfigError>,
    ) -> bool {
        let order = main_first(cg_screens);
        let shown = described_screens(ns_screens, order);
        let described = descriptions_of(ns_screens, order);
        &&& after.system == before.system
        &&& if ns_screens.len() != cg_screens.len() {
            &&& r == Ok::<ScreenConfig, ScreenConfigError>(None)
            &&& after.uuids == before.uuids
        } else if cg_screens.len() == 0 {
            &&& r matches Ok(Some((screens, converter)))
            &&& screens@.len() == 0
            &&& converter.screen_height.bits == geometry::NAN_BITS
            &&& after.uuids@.len() == 0
        } else {
            &&& names_displays(&before.system, shown, after.uuids@)
            &&& exists|height: CGFloat| #[trigger]
                is_height(arith, order[0], height) && match r {
                    Ok(Some((screens, converter))) => {
                        &&& converter.screen_height == height
                        &&& converts_screens(converter, arith, described, screens@)
                        &&& described.len() == 0 || !height.nan()
                    },
                    Ok(None) => false,
                    Err(e) => {
                        &&& e == ScreenConfigError::HeightNotANumber
                        &&& described.len() > 0 && height.nan()
                    },
                }
        }
    }

    /// Takes a list of screens over into the cache.
    pub fn apply_screen_config<A: Arithmetic>(
        &mut self,
        ns_screens: Vec<NSScreenInfo>,
        cg_screens: Vec<CGScreenInfo>,
        arith: &A,
    ) -> (r: Result<ScreenConfig, ScreenConfigError>)
        ensures
            Self::applied(*old(self), ns_screens@, cg_screens@, arith, *final(self), r),
    {
        if ns_screens.len() != cg_screens.len() {
            // This occasionally happens when unlocking. The events where this
            // happens have been extraneous, so ignoring them is fine.
            return Ok(None);
        }
        if cg_screens.len() == 0 {
            self.uuids = Vec::new();
            return Ok(Some((Vec::new(), CoordinateConverter::default())));
        }
        // Ensure that the main screen is always first.
        let mut order = cg_screens;
        if let Some(main) = main_screen(&order) {
            let first = order[0];
            order[0] = order[main];
            order[main] = first;
        }
        assert(order@ =~= main_first(cg_screens@));
        let (shown, described) = describe(&ns_screens, &order);
        self.uuids = name_displays(&self.system, &shown);

        // We want to get the visible_frame of the NSScreenInfo, but in CG's
        // top-left coordinates from NSScreen's bottom-left.
        // The main screen has origin (0, 0) in both coordinate systems.
        let converter = CoordinateConverter { screen_height: order[0].bounds.max_y(arith) };
        assert(is_height(arith, order@[0], converter.screen_height));
        match convert_screens(&converter, &described, arith) {
            Some(screens) => Ok(Some((screens, converter))),
            None => Err(ScreenConfigError::HeightNotANumber),
        }
    }

    /// Returns a list containing the usable frame for each screen.
    ///
    /// This method must be called when there is an update to the screen
    /// configuration. It updates the internal cache so that calls to
    /// `get_screen_spaces` are fast.
    ///
    /// The main screen (if any) is always first. Note that there may be no
    /// screens.
    pub fn update_screen_config<A: Arithmetic>(
        &mut self,
        ns_screens: Vec<NSScreenInfo>,
        arith: &A,
    ) -> (r: Result<ScreenConfig, ScreenConfigError>)
        ensures
            exists|reply: Result<Vec<CGScreenInfo>, CGError>| #[trigger]
                call_ensures(S::cg_screens, (&old(self).system,), reply) && match reply {
                    Ok(cg_screens) => Self::applied(
                        *old(self),
                        ns_screens@,
                        cg_screens@,
                        arith,
                        *final(self),
                        r,
                    ),
                    Err(e) => {
                        &&& r == Err::<ScreenConfig, ScreenConfigError>(
                            ScreenConfigError::ScreenList(e),
                        )
                        &&& *final(self) == *old(self)
                    },
                },
    {
        match self.system.cg_screens() {
            Ok(cg_screens) => self.apply_screen_config(ns_screens, cg_screens, arith),
            Err(e) => Err(ScreenConfigError::ScreenList(e)),
        }
    }

    /// `spaces` are what the displays of the cache show, one for each.
    pub open spec fn lists_spaces(self, spaces: Seq<Option<SpaceId>>) -> bool {
        &&& spaces.len() == self.uuids@.len()
        &&& forall|i: int|
            0 <= i < spaces.len() ==> shows(&self.system, #[trigger] self.uuids@[i], spaces[i])
    }

    /// Returns a list of the active spaces on each screen. The order
    /// corresponds to the screens returned by `update_screen_config`.
    pub fn get_screen_spaces(&self) -> (spaces: Vec<Option<SpaceId>>)
        ensures
            self.lists_spaces(spaces@),
    {
        let mut spaces: Vec<Option<SpaceId>> = Vec::new();
        let mut i: usize = 0;
        while i < self.uuids.len()
            invariant
                i <= self.uuids@.len(),
                spaces@.len() == i,
                forall|j: int|
                    0 <= j < i ==> shows(&self.system, #[trigger] self.uuids@[j], spaces@[j]),
            decreases self.uuids@.len() - i,
        {
            let id = self.system.current_space(&self.uuids[i]);
            spaces.push(SpaceId::from_raw(id));
            i += 1;
        }
        spaces
    }
}

/// A screen as AppKit reports it.
#[derive(Debug, Clone, Copy)]
pub struct NSScreenReport {
    pub frame: CGRect,
    pub visible_frame: CGRect,
    /// What the device description holds for `NSScreenNumber`, if that is a
    /// number.
    pub number: Option<u32>,
    pub backing_scale_factor: CGFloat,
}

/// Screens that may know their number.
pub trait NSScreenExt {
    fn get_number(&self) -> Result<ScreenId, ()>;
}

impl NSScreenExt for NSScreenReport {
    fn get_number(&self) -> (r: Result<ScreenId, ()>)
        ensures
            r == match self.number {
                Some(number) => Ok::<ScreenId, ()>(ScreenId::of(number)),
                None => Err(()),
            },
    {
        match self.number {
            Some(number) => Ok(ScreenId::new(number)),
            None => Err(()),
        }
    }
}

/// What a report says of a screen, if it gives the screen's number.
pub open spec fn info_of(report: NSScreenReport) -> Option<NSScreenInfo> {
    match report.number {
        Some(number) => Some(
            NSScreenInfo {
                frame: report.frame,
                visible_frame: report.visible_frame,
                cg_id: ScreenId::of(number),
                backing_scale_factor: report.backing_scale_factor,
            },
        ),
        None => None,
    }
}

/// Gathers NSScreen information. A screen without a number is left out.
pub fn get_ns_screens(reports: &Vec<NSScreenReport>) -> (screens: Vec<NSScreenInfo>)
    ensures
        screens@ == reports@.filter_map(|report: NSScreenReport| info_of(report)),
{
    let ghost f = |report: NSScreenReport| info_of(report);
    let mut screens: Vec<NSScreenInfo> = Vec::new();
    let mut i: usize = 0;
    while i < reports.len()
        invariant
            i <= reports@.len(),
            f == |report: NSScreenReport| info_of(report),
            screens@ == reports@.take(i as int).filter_map(f),
        decreases reports@.len() - i,
    {
        proof {
            reports@.lemma_filter_map_take_succ(f, i as int);
        }
        let report = reports[i];
        if let Ok(cg_id) = report.get_number() {
            screens.push(
                NSScreenInfo {
                    frame: report.frame,
                    visible_frame: report.visible_frame,
                    cg_id,
                    backing_scale_factor: report.backing_scale_factor,
                },
            );
        }
        i += 1;
    }
    assert(reports@.take(reports@.len() as int) =~= reports@);
    screens
}

/// An active display, and whether the window server says that it is the main
/// one. Anything but zero says yes.
#[derive(Debug, Clone, Copy, PartialEq, Eq, Structural)]
pub struct ActiveDisplay {
    pub id: u32,
    pub is_main: u32,
}

/// The displays that report themselves as main.
pub open spec fn reports_main() -> spec_fn(ActiveDisplay) -> bool {
    |display: ActiveDisplay| display.is_main != 0
}

/// The display macOS currently treats as the main one, or `None` if no display
/// reports itself as main.
///
/// Used to resolve `DisplaySelector::Builtin` by identity rather than by
/// position in the window server's display list. The two agree in a settled
/// configuration, but the list is rebuilt as displays come and go, so on wake
/// position alone can name a different display than the user meant.
pub fn main_display(displays: &Vec<ActiveDisplay>) -> (r: Option<u32>)
    ensures
        r == match search::first_where(displays@, reports_main()) {
            Some(i) => Some(displays@[i].id),
            None => None,
        },
{
    let ghost p = reports_main();
    let mut i: usize = 0;
    while i < displays.len()
        invariant
            p == reports_main(),
            i <= displays@.len(),
            forall|j: int| 0 <= j < i ==> !p(#[trigger] displays@[j]),
        decreases displays@.len() - i,
    {
        if displays[i].is_main != 0 {
            proof {
                search::lemma_first_where_is(displays@, p, i as int);
            }
            return Some(displays[i].id);
        }
        i += 1;
    }
    None
}

/// The main screen, if there is one, is always first.
pub proof fn law_main_screen_is_first(screens: Seq<CGScreenInfo>)
    requires
        exists|i: int| 0 <= i < screens.len() && (#[trigger] screens[i]).bounds.origin.at_origin(),
    ensures
        main_first(screens)[0].bounds.origin.at_origin(),
{
    let i = choose|i: int|
        0 <= i < screens.len() && (#[trigger] screens[i]).bounds.origin.at_origin();
    search::lemma_first_where_exists(screens, is_main(), i);
}

proof fn lemma_first_described(ns_screens: Seq<NSScreenInfo>, screens: Seq<CGScreenInfo>)
    requires
        screens.len() > 0,
        description_of(ns_screens, screens[0]) is Some,
    ensures
        descriptions_of(ns_screens, screens).len() > 0,
        Some(descriptions_of(ns_screens, screens)[0]) == description_of(ns_screens, screens[0]),
    decreases screens.len(),
{
    let rest = screens.drop_last();
    if rest.len() > 0 {
        lemma_first_described(ns_screens, rest);
    } else {
        assert(descriptions_of(ns_screens, rest) =~= Seq::empty());
    }
}

/// Of the screens that an update returns, the main screen is the first, if
/// there is one and AppKit describes it.
pub proof fn law_main_screen_is_returned_first<S: System, A: Arithmetic>(
    before: ScreenCache<S>,
    ns_screens: Seq<NSScreenInfo>,
    cg_screens: Seq<CGScreenInfo>,
    arith: &A,
    after: ScreenCache<S>,
    screens: Vec<ScreenInfo>,
    converter: CoordinateConverter,
    main: int,
)
    requires
        ScreenCache::applied(
            before,
            ns_screens,
            cg_screens,
            arith,
            after,
            Ok(Some((screens, converter))),
        ),
        search::first_where(cg_screens, is_main()) == Some(main),
        description_of(ns_screens, cg_screens[main]) is Some,
    ensures
        screens@.len() > 0,
        screens@[0].id == cg_screens[main].cg_id,
        cg_screens[main].bounds.origin.at_origin(),
        is_height(arith, cg_screens[main], converter.screen_height),
{
    let order = main_first(cg_screens);
    let described = descriptions_of(ns_screens, order);
    assert(order[0] == cg_screens[main]);
    lemma_first_described(ns_screens, order);
    assert(converts_screen(converter, arith, described[0], screens@[0]));
}

/// Putting the main screen first loses no screen and adds none.
pub proof fn law_main_first_keeps_every_screen(screens: Seq<CGScreenInfo>)
    ensures
        main_first(screens).to_multiset() == screens.to_multiset(),
{
    broadcast use vstd::seq_lib::group_to_multiset_ensures;

    if let Some(i) = search::first_where(screens, is_main()) {
        assert(screens.update(0, screens[i]).update(i, screens[0]).to_multiset()
            =~= screens.to_multiset());
    }
}

/// A configuration is passed over exactly when the two lists of screens differ
/// in length, and the cache is then what it was.
pub proof fn law_passed_over_config_keeps_the_cache<S: System, A: Arithmetic>(
    before: ScreenCache<S>,
    ns_screens: Seq<NSScreenInfo>,
    cg_screens: Seq<CGScreenInfo>,
    arith: &A,
    after: ScreenCache<S>,
    r: Result<ScreenConfig, ScreenConfigError>,
)
    requires
        ScreenCache::applied(before, ns_screens, cg_screens, arith, after, r),
    ensures
        r == Ok::<ScreenConfig, ScreenConfigError>(None) <==> ns_screens.len() != cg_screens.len(),
        ns_screens.len() != cg_screens.len() ==> after == before,
{
}

/// The descriptions of screens stand in the order of the screens that have one.
pub proof fn lemma_descriptions_follow_screens(
    ns_screens: Seq<NSScreenInfo>,
    screens: Seq<CGScreenInfo>,
)
    ensures
        descriptions_of(ns_screens, screens).len() == described_screens(ns_screens, screens).len(),
        forall|i: int|
            0 <= i < descriptions_of(ns_screens, screens).len() ==> Some(
                #[trigger] descriptions_of(ns_screens, screens)[i],
            ) == description_of(ns_screens, described_screens(ns_screens, screens)[i]),
    decreases screens.len(),
{
    reveal(Seq::filter);
    if screens.len() > 0 {
        lemma_descriptions_follow_screens(ns_screens, screens.drop_last());
    }
}

/// The spaces of `get_screen_spaces` stand in the order of the screens that the
/// last update returned: there is one for each, and the space at a place is
/// what the display shows that was named for the screen at that place.
pub proof fn law_spaces_follow_screens<S: System, A: Arithmetic>(
    before: ScreenCache<S>,
    ns_screens: Seq<NSScreenInfo>,
    cg_screens: Seq<CGScreenInfo>,
    arith: &A,
    after: ScreenCache<S>,
    screens: Vec<ScreenInfo>,
    converter: CoordinateConverter,
    spaces: Seq<Option<SpaceId>>,
)
    requires
        ScreenCache::applied(
            before,
            ns_screens,
            cg_screens,
            arith,
            after,
            Ok(Some((screens, converter))),
        ),
        after.lists_spaces(spaces),
    ensures
        spaces.len() == screens@.len(),
        ({
            let shown = described_screens(ns_screens, main_first(cg_screens));
            &&& shown.len() == screens@.len()
            &&& forall|i: int|
                0 <= i < screens@.len() ==> {
                    &&& (#[trigger] screens@[i]).id == shown[i].cg_id
                    &&& call_ensures(
                        S::uuid_for_rect,
                        (&before.system, shown[i].bounds),
                        after.uuids@[i],
                    )
                    &&& shows(&after.system, after.uuids@[i], spaces[i])
                }
        }),
{
    let order = main_first(cg_screens);
    let shown = described_screens(ns_screens, order);
    let described = descriptions_of(ns_screens, order);
    lemma_descriptions_follow_screens(ns_screens, order);
    assert forall|i: int| 0 <= i < screens@.len() implies {
        &&& (#[trigger] screens@[i]).id == shown[i].cg_id
        &&& call_ensures(S::uuid_for_rect, (&before.system, shown[i].bounds), after.uuids@[i])
        &&& shows(&after.system, after.uuids@[i], spaces[i])
    } by {
        assert(converts_screen(converter, arith, described[i], screens@[i]));
        assert(description_of(ns_screens, shown[i]) == Some(described[i]));
    }
}

/// A list in another order describes a screen in the same way, as long as no
/// two of its descriptions are of one screen.
proof fn lemma_description_in_any_order(
    ns_screens: Seq<NSScreenInfo>,
    reordered: Seq<NSScreenInfo>,
    screen: CGScreenInfo,
)
    requires
        ns_screens.to_multiset() == reordered.to_multiset(),
        forall|i: int, j: int|
            0 <= i < j < ns_screens.len() ==> (#[trigger] ns_screens[i]).cg_id != (
            #[trigger] ns_screens[j]).cg_id,
    ensures
        description_of(ns_screens, screen) == description_of(reordered, screen),
{
    broadcast use vstd::seq_lib::group_to_multiset_ensures;

    let p = describes(screen.cg_id);
    if let Some(i) = search::first_where(ns_screens, p) {
        assert(ns_screens.contains(ns_screens[i]));
        assert(reordered.to_multiset().count(ns_screens[i]) > 0);
        assert(reordered.contains(ns_screens[i]));
        let j = choose|j: int| 0 <= j < reordered.len() && reordered[j] == ns_screens[i];
        search::lemma_first_where_exists(reordered, p, j);
    }
    if let Some(j) = search::first_where(reordered, p) {
        assert(reordered.contains(reordered[j]));
        assert(ns_screens.to_multiset().count(reordered[j]) > 0);
        assert(ns_screens.contains(reordered[j]));
        let i = choose|i: int| 0 <= i < ns_screens.len() && ns_screens[i] == reordered[j];
        search::lemma_first_where_exists(ns_screens, p, i);
    }
}

/// The order of AppKit's list does not matter, as long as its screens are
/// distinct: in any order it allows the same outcomes.
pub proof fn law_order_of_descriptions_does_not_matter<S: System, A: Arithmetic>(
    before: ScreenCache<S>,
    ns_screens: Seq<NSScreenInfo>,
    reordered: Seq<NSScreenInfo>,
    cg_screens: Seq<CGScreenInfo>,
    arith: &A,
    after: ScreenCache<S>,
    r: Result<ScreenConfig, ScreenConfigError>,
)
    requires
        ns_screens.to_multiset() == reordered.to_multiset(),
        forall|i: int, j: int|
            0 <= i < j < ns_screens.len() ==> (#[trigger] ns_screens[i]).cg_id != (
            #[trigger] ns_screens[j]).cg_id,
    ensures
        ScreenCache::applied(before, ns_screens, cg_screens, arith, after, r)
            <==> ScreenCache::applied(before, reordered, cg_screens, arith, after, r),
{
    ns_screens.to_multiset_ensures();
    reordered.to_multiset_ensures();
    assert(ns_screens.len() == reordered.len());
    assert forall|screen: CGScreenInfo| #[trigger]
        description_of(ns_screens, screen) == description_of(reordered, screen) by {
        lemma_description_in_any_order(ns_screens, reordered, screen);
    }
    let f = |screen: CGScreenInfo| description_of(ns_screens, screen);
    let g = |screen: CGScreenInfo| description_of(reordered, screen);
    assert(f =~= g);
    assert(is_described(ns_screens) =~= is_described(reordered));
    let order = main_first(cg_screens);
    assert(descriptions_of(ns_screens, order) == descriptions_of(reordered, order));
}

/// The same screen with the same frame and scale, where one NaN in the place of
/// the frame is as good as another.
pub open spec fn same_screen(a: ScreenInfo, b: ScreenInfo) -> bool {
    &&& a.id == b.id
    &&& a.scale_factor == b.scale_factor
    &&& a.visible_frame.size == b.visible_frame.size
    &&& a.visible_frame.origin.x == b.visible_frame.origin.x
    &&& a.visible_frame.origin.y.agrees(b.visible_frame.origin.y)
}

/// Two outcomes that tell the caller the same.
pub open spec fn same_outcome(
    a: Result<ScreenConfig, ScreenConfigError>,
    b: Result<ScreenConfig, ScreenConfigError>,
) -> bool {
    match (a, b) {
        (Ok(Some((screens, converter))), Ok(Some((others, other)))) => {
            &&& screens@.len() == others@.len()
            &&& forall|i: int|
                0 <= i < screens@.len() ==> same_screen(#[trigger] screens@[i], others@[i])
            &&& converter.screen_height.agrees(other.screen_height)
        },
        (Ok(None), Ok(None)) => true,
        (Err(e), Err(f)) => e == f,
        _ => false,
    }
}

/// Whether every frame begins at a number.
pub open spec fn frames_are_numbers(screens: Seq<ScreenInfo>) -> bool {
    forall|i: int|
        0 <= i < screens.len() ==> !(#[trigger] screens[i]).visible_frame.origin.y.nan()
}

/// Frames that begin at numbers, and heights that are numbers, are the same bit
/// for bit.
pub open spec fn identical_without_nans(
    a: Result<ScreenConfig, ScreenConfigError>,
    b: Result<ScreenConfig, ScreenConfigError>,
) -> bool {
    match (a, b) {
        (Ok(Some((screens, converter))), Ok(Some((others, other)))) => {
            &&& frames_are_numbers(screens@) ==> screens@ == others@
            &&& converter.converts() ==> converter == other
        },
        _ => true,
    }
}

/// Two caches that are given the same screens return the same, whatever they
/// held and in whatever order AppKit lists its distinct screens; without NaNs,
/// bit for bit. The arithmetic has to be a function of its operands.
pub proof fn law_same_screens_give_the_same_outcome<S: System, T: System, A: Arithmetic>(
    before: ScreenCache<S>,
    after: ScreenCache<S>,
    ns_screens: Seq<NSScreenInfo>,
    r: Result<ScreenConfig, ScreenConfigError>,
    other_before: ScreenCache<T>,
    other_after: ScreenCache<T>,
    reordered: Seq<NSScreenInfo>,
    other_r: Result<ScreenConfig, ScreenConfigError>,
    cg_screens: Seq<CGScreenInfo>,
    arith: &A,
)
    requires
        ns_screens.to_multiset() == reordered.to_multiset(),
        forall|i: int, j: int|
            0 <= i < j < ns_screens.len() ==> (#[trigger] ns_screens[i]).cg_id != (
            #[trigger] ns_screens[j]).cg_id,
        geometry::is_functional(arith),
        ScreenCache::applied(before, ns_screens, cg_screens, arith, after, r),
        ScreenCache::applied(other_before, reordered, cg_screens, arith, other_after, other_r),
    ensures
        same_outcome(r, other_r),
        identical_without_nans(r, other_r),
{
    law_order_of_descriptions_does_not_matter(
        other_before,
        ns_screens,
        reordered,
        cg_screens,
        arith,
        other_after,
        other_r,
    );
    if let (Ok(Some((screens, converter))), Ok(Some((others, other)))) = (r, other_r) {
        let described = descriptions_of(ns_screens, main_first(cg_screens));
        if cg_screens.len() > 0 {
            assert forall|i: int| 0 <= i < screens@.len() implies same_screen(
                #[trigger] screens@[i],
                others@[i],
            ) by {
                assert(converts_screen(converter, arith, described[i], screens@[i]));
                assert(converts_screen(other, arith, described[i], others@[i]));
            }
        }
        if frames_are_numbers(screens@) {
            assert forall|i: int| 0 <= i < screens@.len() implies #[trigger] screens@[i]
                == others@[i] by {
                assert(same_screen(screens@[i], others@[i]));
            }
            assert(screens@ =~= others@);
        }
    }
}

} // verus!
