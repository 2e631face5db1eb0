//! The conveyor world: generator, belt and bin stations, the shapes riding
//! the belt, and the per-frame passes that spawn, move and collect them.
//!
//! Coordinates are fixed-point integers with two units per world distance
//! unit, so the per-frame motion step of half a world unit is the integer 1
//! and the bin capture half-width of 64 world units is 128. All positions are
//! `i64` values in these units.

use crate::clock::{next_remaining, tick_fires, Clock};
use crate::shapes::{random_color, random_shape, Shape, ShapeColor};
use vstd::prelude::*;

verus! {

/// The farthest a station may stand from the origin, leaving ample headroom
/// for the offset arithmetic around stations.
pub const COORD_LIMIT: i64 = 1_000_000_000_000;

/// How far (to the right) of its generator a conveyor's belt stands.
pub const BELT_OFFSET: i64 = 256;

/// How far (to the right) of its generator a conveyor's bin stands.
pub const BIN_OFFSET: i64 = 600;

/// How far above its generator a fresh shape appears.
pub const SPAWN_Y_OFFSET: i64 = 20;

/// The per-frame motion step of a shape: half a world unit.
pub const MOTION_STEP: i64 = 1;

/// Half the width of a bin's capture interval: 64 world units.
pub const CAPTURE_HALF_WIDTH: i64 = 128;

/// The default period of the conveyor clock, in milliseconds.
pub const DEFAULT_PERIOD_MS: u64 = 5000;

/// A fixed-position station of the conveyor layout.
#[derive(Clone, Copy, Debug, PartialEq, Eq, Structural)]
pub struct Station {
    pub x: i64,
    pub y: i64,
}

/// A shape entity riding the belt: a stable identity, its looks, and its
/// position.
#[derive(Clone, Copy, Debug, PartialEq, Eq, Structural)]
pub struct ShapeEntity {
    /// Stable identity; no two live shapes ever share one.
    pub id: u64,
    pub kind: Shape,
    pub color: ShapeColor,
    pub x: i64,
    pub y: i64,
}

/// Why a conveyor world or an added conveyor line was rejected.
#[derive(Clone, Copy, Debug, PartialEq, Eq, Structural)]
pub enum ConveyorConfigError {
    /// The clock period was zero.
    ZeroPeriod,
    /// The motion step was zero or negative.
    NonPositiveStep,
    /// The capture half-width was zero, negative, or beyond the world extent.
    InvalidCaptureWidth,
    /// A station of the new conveyor line would stand outside the world extent.
    StationOutOfRange,
    /// The new bin's capture interval would overlap an existing bin's.
    OverlappingBins,
}

/// Is a station within the world extent?
pub open spec fn station_in_range(s: Station) -> bool {
    &&& -COORD_LIMIT <= s.x <= COORD_LIMIT
    &&& -COORD_LIMIT <= s.y <= COORD_LIMIT
}

/// May a conveyor line be rooted at this generator position? Its bin, the
/// rightmost of its stations, must stay within the world extent too.
pub open spec fn conveyor_origin_in_range(origin: Station) -> bool {
    &&& -COORD_LIMIT <= origin.x
    &&& origin.x + BIN_OFFSET <= COORD_LIMIT
    &&& -COORD_LIMIT <= origin.y <= COORD_LIMIT
}

/// Do two bins at these centers have overlapping open capture intervals?
pub open spec fn bins_overlap(x1: int, x2: int, half_width: int) -> bool {
    -(2 * half_width) < x1 - x2 < 2 * half_width
}

/// No two bins have overlapping capture intervals, so a shape is never
/// claimed by two bins at once.
pub open spec fn bins_disjoint(bins: Seq<Station>, half_width: int) -> bool {
    forall|i: int, j: int|
        0 <= i < j < bins.len() ==> !bins_overlap(
            (#[trigger] bins[i]).x as int,
            (#[trigger] bins[j]).x as int,
            half_width,
        )
}

/// All shape identities are pairwise distinct.
pub open spec fn ids_unique(shapes: Seq<ShapeEntity>) -> bool {
    forall|i: int, j: int|
        0 <= i < j < shapes.len() ==> (#[trigger] shapes[i]).id != (#[trigger] shapes[j]).id
}

/// All shape identities lie strictly below the bound.
pub open spec fn ids_below(shapes: Seq<ShapeEntity>, bound: int) -> bool {
    forall|i: int| 0 <= i < shapes.len() ==> (#[trigger] shapes[i]).id < bound
}

/// The whole conveyor simulation state: the clock, the stations of every
/// conveyor line, the live shapes, and the motion configuration.
pub struct ConveyorWorld {
    /// Gates shape spawning.
    pub clock: Clock,
    /// The identity the next spawned shape will get.
    pub next_id: u64,
    /// The live shapes, in spawn order.
    pub shapes: Vec<ShapeEntity>,
    pub generators: Vec<Station>,
    pub belts: Vec<Station>,
    pub bins: Vec<Station>,
    /// Base horizontal distance a shape covers per frame.
    pub step: i64,
    /// Whether the per-frame displacement is scaled by the elapsed time.
    /// The conveyor does not scale, so its shape speed depends on the frame
    /// rate; the flag keeps that debatable choice explicit and configurable.
    pub scale_by_delta_time: bool,
    /// Half the width of every bin's capture interval.
    pub half_width: i64,
}

impl ConveyorWorld {
    /// The world invariant: a well-formed clock, a positive step, a capture
    /// width within the world extent, stations within the world extent,
    /// distinct shape identities below `next_id`, and pairwise disjoint bins.
    pub open spec fn wf(self) -> bool {
        &&& self.clock.wf()
        &&& 1 <= self.step
        &&& 1 <= self.half_width <= COORD_LIMIT
        &&& forall|i: int|
            0 <= i < self.generators@.len() ==> station_in_range(#[trigger] self.generators@[i])
        &&& forall|i: int| 0 <= i < self.belts@.len() ==> station_in_range(#[trigger] self.belts@[i])
        &&& forall|i: int| 0 <= i < self.bins@.len() ==> station_in_range(#[trigger] self.bins@[i])
        &&& ids_unique(self.shapes@)
        &&& ids_below(self.shapes@, self.next_id as int)
        &&& bins_disjoint(self.bins@, self.half_width as int)
    }

    /// Builds an empty conveyor world: no stations, no shapes, a freshly
    /// loaded clock. Rejects a zero period, a non-positive step, and a
    /// capture half-width outside `[1, COORD_LIMIT]`, in that order.
    pub fn new(period: u64, step: i64, scale_by_delta_time: bool, half_width: i64) -> (result:
        Result<ConveyorWorld, ConveyorConfigError>)
        ensures
            period == 0 ==> result == Result::<ConveyorWorld, ConveyorConfigError>::Err(
                ConveyorConfigError::ZeroPeriod,
            ),
            period >= 1 && step < 1 ==> result == Result::<
                ConveyorWorld,
                ConveyorConfigError,
            >::Err(ConveyorConfigError::NonPositiveStep),
            period >= 1 && step >= 1 && !(1 <= half_width <= COORD_LIMIT) ==> result == Result::<
                ConveyorWorld,
                ConveyorConfigError,
            >::Err(ConveyorConfigError::InvalidCaptureWidth),
            period >= 1 && step >= 1 && 1 <= half_width <= COORD_LIMIT ==> (result matches Ok(w)
                && w.wf() && w.clock.period == period && w.clock.remaining == period && w.next_id
                == 0 && w.shapes@.len() == 0 && w.generators@.len() == 0 && w.belts@.len() == 0
                && w.bins@.len() == 0 && w.step == step && w.scale_by_delta_time
                == scale_by_delta_time && w.half_width == half_width),
    {
        if period == 0 {
            Err(ConveyorConfigError::ZeroPeriod)
        } else if step < 1 {
            Err(ConveyorConfigError::NonPositiveStep)
        } else if half_width < 1 || half_width > COORD_LIMIT {
            Err(ConveyorConfigError::InvalidCaptureWidth)
        } else {
            Ok(
                ConveyorWorld {
                    clock: Clock { period, remaining: period },
                    next_id: 0,
                    shapes: Vec::new(),
                    generators: Vec::new(),
                    belts: Vec::new(),
                    bins: Vec::new(),
                    step,
                    scale_by_delta_time,
                    half_width,
                },
            )
        }
    }

    /// Adds one conveyor line rooted at `origin`: its generator there, its
    /// belt `BELT_OFFSET` to the right, its bin `BIN_OFFSET` to the right.
    /// Rejects an origin outside the world extent, and a bin that would
    /// overlap an existing bin's capture interval; a rejected line leaves the
    /// world unchanged.
    pub fn spawn_conveyor(&mut self, origin: Station) -> (result: Result<
        (),
        ConveyorConfigError,
    >)
        requires
            old(self).wf(),
        ensures
            final(self).wf(),
            !conveyor_origin_in_range(origin) ==> result == Result::<
                (),
                ConveyorConfigError,
            >::Err(ConveyorConfigError::StationOutOfRange) && *final(self) == *old(self),
            conveyor_origin_in_range(origin) && (exists|i: int|
                0 <= i < old(self).bins@.len() && bins_overlap(
                    origin.x + BIN_OFFSET,
                    (#[trigger] old(self).bins@[i]).x as int,
                    old(self).half_width as int,
                )) ==> result == Result::<(), ConveyorConfigError>::Err(
                ConveyorConfigError::OverlappingBins,
            ) && *final(self) == *old(self),
            conveyor_origin_in_range(origin) && (forall|i: int|
                0 <= i < old(self).bins@.len() ==> !bins_overlap(
                    origin.x + BIN_OFFSET,
                    (#[trigger] old(self).bins@[i]).x as int,
                    old(self).half_width as int,
                )) ==> {
                &&& result == Result::<(), ConveyorConfigError>::Ok(())
                &&& final(self).generators@ == old(self).generators@.push(origin)
                &&& final(self).belts@ == old(self).belts@.push(
                    (Station { x: (origin.x + BELT_OFFSET) as i64, y: origin.y }),
                )
                &&& final(self).bins@ == old(self).bins@.push(
                    (Station { x: (origin.x + BIN_OFFSET) as i64, y: origin.y }),
                )
                &&& final(self).shapes == old(self).shapes
                &&& final(self).clock == old(self).clock
                &&& final(self).next_id == old(self).next_id
                &&& final(self).step == old(self).step
                &&& final(self).scale_by_delta_time == old(self).scale_by_delta_time
                &&& final(self).half_width == old(self).half_width
            },
    {
        if origin.x < -COORD_LIMIT || origin.x > COORD_LIMIT - BIN_OFFSET || origin.y < -COORD_LIMIT
            || origin.y > COORD_LIMIT {
            return Err(ConveyorConfigError::StationOutOfRange);
        }
        let bin_x = origin.x + BIN_OFFSET;
        let mut i: usize = 0;
        while i < self.bins.len()
            invariant
                old(self).wf(),
                *self == *old(self),
                conveyor_origin_in_range(origin),
                bin_x == origin.x + BIN_OFFSET,
                i <= self.bins@.len(),
                forall|k: int|
                    0 <= k < i ==> !bins_overlap(
                        bin_x as int,
                        (#[trigger] self.bins@[k]).x as int,
                        self.half_width as int,
                    ),
            decreases self.bins@.len() - i,
        {
            let existing = self.bins[i];
            let diff = if bin_x >= existing.x {
                bin_x - existing.x
            } else {
                existing.x - bin_x
            };
            if diff < 2 * self.half_width {
                return Err(ConveyorConfigError::OverlappingBins);
            }
            i = i + 1;
        }
        self.generators.push(origin);
        self.belts.push(Station { x: origin.x + BELT_OFFSET, y: origin.y });
        self.bins.push(Station { x: bin_x, y: origin.y });
        Ok(())
    }
}

/// A freshly spawned shape: it carries the given identity and stands just
/// above its generator. Its kind and color are whatever the random draws gave.
pub open spec fn spawned_at(s: ShapeEntity, generator: Station, id: int) -> bool {
    &&& s.id == id
    &&& s.x == generator.x
    &&& s.y == generator.y + SPAWN_Y_OFFSET
}

impl ConveyorWorld {
    /// Is there identity headroom for one spawn round (one shape per
    /// generator)?
    pub fn can_spawn(&self) -> (ok: bool)
        ensures
            ok == (self.next_id + self.generators@.len() <= u64::MAX),
    {
        let generator_count = self.generators.len();
        u64::MAX - self.next_id >= generator_count as u64
    }

    /// Advances the clock; when it fires, spawns one shape per generator,
    /// each just above its generator, with a random kind and color and a
    /// fresh identity. Shapes can appear through this pass alone, and only on
    /// a fired clock.
    pub fn shape_spawner_system(&mut self, elapsed: u64) -> (fired: bool)
        requires
            old(self).wf(),
            old(self).next_id + old(self).generators@.len() <= u64::MAX,
        ensures
            final(self).wf(),
            fired == tick_fires(old(self).clock.remaining as int, elapsed as int),
            final(self).clock.period == old(self).clock.period,
            final(self).clock.remaining == next_remaining(
                old(self).clock.remaining as int,
                old(self).clock.period as int,
                elapsed as int,
            ),
            final(self).generators == old(self).generators,
            final(self).belts == old(self).belts,
            final(self).bins == old(self).bins,
            final(self).step == old(self).step,
            final(self).scale_by_delta_time == old(self).scale_by_delta_time,
            final(self).half_width == old(self).half_width,
            !fired ==> final(self).shapes == old(self).shapes && final(self).next_id == old(
                self,
            ).next_id,
            fired ==> final(self).next_id == old(self).next_id + old(self).generators@.len(),
            fired ==> final(self).shapes@.len() == old(self).shapes@.len() + old(
                self,
            ).generators@.len(),
            forall|i: int|
                0 <= i < old(self).shapes@.len() ==> #[trigger] final(self).shapes@[i] == old(
                    self,
                ).shapes@[i],
            fired ==> forall|j: int|
                0 <= j < old(self).generators@.len() ==> spawned_at(
                    #[trigger] final(self).shapes@[old(self).shapes@.len() + j],
                    old(self).generators@[j],
                    old(self).next_id + j,
                ),
    {
        let fired = self.clock.tick(elapsed);
        if fired {
            let ghost ticked_clock = self.clock;
            let generator_count = self.generators.len();
            let mut j: usize = 0;
            while j < generator_count
                invariant
                    old(self).wf(),
                    j <= generator_count,
                    generator_count == old(self).generators@.len(),
                    self.clock == ticked_clock,
                    self.generators == old(self).generators,
                    self.belts == old(self).belts,
                    self.bins == old(self).bins,
                    self.step == old(self).step,
                    self.scale_by_delta_time == old(self).scale_by_delta_time,
                    self.half_width == old(self).half_width,
                    old(self).next_id + generator_count <= u64::MAX,
                    self.next_id == old(self).next_id + j,
                    self.shapes@.len() == old(self).shapes@.len() + j,
                    forall|i: int|
                        0 <= i < old(self).shapes@.len() ==> #[trigger] self.shapes@[i] == old(
                            self,
                        ).shapes@[i],
                    forall|k: int|
                        0 <= k < j ==> spawned_at(
                            #[trigger] self.shapes@[old(self).shapes@.len() + k],
                            old(self).generators@[k],
                            old(self).next_id + k,
                        ),
                    ids_unique(self.shapes@),
                    ids_below(self.shapes@, self.next_id as int),
                decreases generator_count - j,
            {
                let generator = self.generators[j];
                let kind = random_shape();
                let color = random_color();
                let id = self.next_id;
                self.next_id = self.next_id + 1;
                self.shapes.push(
                    ShapeEntity { id, kind, color, x: generator.x, y: generator.y + SPAWN_Y_OFFSET },
                );
                j = j + 1;
            }
        }
        fired
    }
}

/// The horizontal distance every shape covers in one frame: the bare step,
/// or the step scaled by the elapsed time when the world is configured to
/// scale.
pub open spec fn frame_displacement(step: int, scale_by_delta_time: bool, elapsed: int) -> int {
    if scale_by_delta_time {
        step * elapsed
    } else {
        step
    }
}

/// The same shape moved right by the given displacement.
pub open spec fn moved_shape(s: ShapeEntity, displacement: int) -> ShapeEntity {
    ShapeEntity { x: (s.x + displacement) as i64, ..s }
}

/// A whole shape sequence moved right by the given displacement.
pub open spec fn moved_seq(shapes: Seq<ShapeEntity>, displacement: int) -> Seq<ShapeEntity> {
    shapes.map_values(|s: ShapeEntity| moved_shape(s, displacement))
}

impl ConveyorWorld {
    /// The arithmetic room one motion pass needs: a representable
    /// displacement and no shape pushed past the right end of `i64`.
    pub open spec fn motion_fits(self, elapsed: int) -> bool {
        &&& self.scale_by_delta_time ==> elapsed <= i64::MAX && self.step * elapsed <= i64::MAX
        &&& forall|i: int|
            0 <= i < self.shapes@.len() ==> (#[trigger] self.shapes@[i]).x + frame_displacement(
                self.step as int,
                self.scale_by_delta_time,
                elapsed,
            ) <= i64::MAX
    }

    /// Does one motion pass with this elapsed time fit in `i64` arithmetic?
    pub fn motion_headroom(&self, elapsed: u64) -> (ok: bool)
        requires
            self.wf(),
        ensures
            ok == self.motion_fits(elapsed as int),
    {
        if self.scale_by_delta_time {
            if elapsed > i64::MAX as u64 {
                return false;
            }
            if elapsed > 0 && self.step > i64::MAX / (elapsed as i64) {
                proof {
                    let e = elapsed as int;
                    let s = self.step as int;
                    assert(s > i64::MAX as int / e ==> s * e > i64::MAX) by (nonlinear_arith)
                        requires
                            1 <= e,
                            1 <= s,
                    ;
                }
                return false;
            }
            proof {
                let e = elapsed as int;
                let s = self.step as int;
                if e > 0 {
                    assert(s <= i64::MAX as int / e ==> s * e <= i64::MAX) by (nonlinear_arith)
                        requires
                            1 <= e,
                            1 <= s,
                    ;
                }
            }
        }
        let displacement = if self.scale_by_delta_time {
            self.step * (elapsed as i64)
        } else {
            self.step
        };
        let mut i: usize = 0;
        let mut ok = true;
        while i < self.shapes.len()
            invariant
                self.wf(),
                i <= self.shapes@.len(),
                self.scale_by_delta_time ==> elapsed <= i64::MAX && self.step * elapsed
                    <= i64::MAX,
                displacement == frame_displacement(
                    self.step as int,
                    self.scale_by_delta_time,
                    elapsed as int,
                ),
                ok == forall|k: int|
                    0 <= k < i ==> (#[trigger] self.shapes@[k]).x + displacement <= i64::MAX,
            decreases self.shapes@.len() - i,
        {
            let shape = self.shapes[i];
            if shape.x > i64::MAX - displacement {
                ok = false;
            }
            i = i + 1;
        }
        ok
    }

    /// Advances every live shape's horizontal position by the frame
    /// displacement. No shape appears, disappears, or changes in any other
    /// way.
    pub fn shapes_movement_system(&mut self, elapsed: u64)
        requires
            old(self).wf(),
            old(self).motion_fits(elapsed as int),
        ensures
            final(self).wf(),
            final(self).clock == old(self).clock,
            final(self).next_id == old(self).next_id,
            final(self).generators == old(self).generators,
            final(self).belts == old(self).belts,
            final(self).bins == old(self).bins,
            final(self).step == old(self).step,
            final(self).scale_by_delta_time == old(self).scale_by_delta_time,
            final(self).half_width == old(self).half_width,
            final(self).shapes@ == moved_seq(
                old(self).shapes@,
                frame_displacement(
                    old(self).step as int,
                    old(self).scale_by_delta_time,
                    elapsed as int,
                ),
            ),
    {
        let ghost displacement_spec = frame_displacement(
            old(self).step as int,
            old(self).scale_by_delta_time,
            elapsed as int,
        );
        let displacement = if self.scale_by_delta_time {
            self.step * (elapsed as i64)
        } else {
            self.step
        };
        let shape_count = self.shapes.len();
        let mut i: usize = 0;
        while i < shape_count
            invariant
                old(self).wf(),
                i <= shape_count,
                shape_count == old(self).shapes@.len(),
                displacement == displacement_spec,
                displacement_spec == frame_displacement(
                    old(self).step as int,
                    old(self).scale_by_delta_time,
                    elapsed as int,
                ),
                forall|k: int|
                    0 <= k < old(self).shapes@.len() ==> (#[trigger] old(self).shapes@[k]).x
                        + displacement_spec <= i64::MAX,
                self.clock == old(self).clock,
                self.next_id == old(self).next_id,
                self.generators == old(self).generators,
                self.belts == old(self).belts,
                self.bins == old(self).bins,
                self.step == old(self).step,
                self.scale_by_delta_time == old(self).scale_by_delta_time,
                self.half_width == old(self).half_width,
                self.shapes@.len() == old(self).shapes@.len(),
                forall|k: int|
                    i <= k < old(self).shapes@.len() ==> #[trigger] self.shapes@[k] == old(
                        self,
                    ).shapes@[k],
                forall|k: int|
                    0 <= k < i ==> #[trigger] self.shapes@[k] == moved_shape(
                        old(self).shapes@[k],
                        displacement_spec,
                    ),
            decreases shape_count - i,
        {
            let mut shape = self.shapes[i];
            shape.x = shape.x + displacement;
            self.shapes[i] = shape;
            i = i + 1;
        }
        proof {
            assert(self.shapes@ =~= moved_seq(old(self).shapes@, displacement_spec));
            assert(ids_unique(self.shapes@));
            assert(ids_below(self.shapes@, self.next_id as int));
        }
    }
}

/// Is this position strictly inside a bin's open capture interval?
pub open spec fn captured(x: int, bin_x: int, half_width: int) -> bool {
    bin_x - half_width < x < bin_x + half_width
}

/// Is this position inside the capture interval of any of the bins?
pub open spec fn captured_by_any(x: int, bins: Seq<Station>, half_width: int) -> bool {
    exists|k: int| 0 <= k < bins.len() && captured(x, (#[trigger] bins[k]).x as int, half_width)
}

/// Does this shape stay on the belt, outside every bin's capture interval?
pub open spec fn survives(s: ShapeEntity, bins: Seq<Station>, half_width: int) -> bool {
    !captured_by_any(s.x as int, bins, half_width)
}

/// The subsequence of shapes that stay on the belt, in their original order.
pub open spec fn surviving_shapes(
    shapes: Seq<ShapeEntity>,
    bins: Seq<Station>,
    half_width: int,
) -> Seq<ShapeEntity> {
    shapes.filter(|s: ShapeEntity| survives(s, bins, half_width))
}

/// Every surviving shape is one of the original shapes.
proof fn lemma_surviving_members(shapes: Seq<ShapeEntity>, bins: Seq<Station>, half_width: int)
    ensures
        forall|k: int|
            0 <= k < surviving_shapes(shapes, bins, half_width).len() ==> shapes.contains(
                #[trigger] surviving_shapes(shapes, bins, half_width)[k],
            ),
    decreases shapes.len(),
{
    reveal(Seq::filter);
    if shapes.len() == 0 {
    } else {
        let rest = shapes.drop_last();
        lemma_surviving_members(rest, bins, half_width);
        let surv = surviving_shapes(shapes, bins, half_width);
        let surv_rest = surviving_shapes(rest, bins, half_width);
        assert forall|k: int| 0 <= k < surv.len() implies shapes.contains(surv[k]) by {
            if k < surv_rest.len() {
                assert(surv[k] == surv_rest[k]);
                assert(rest.contains(surv_rest[k]));
                let j = choose|j: int| 0 <= j < rest.len() && rest[j] == surv_rest[k];
                assert(shapes[j] == surv[k]);
            } else {
                assert(surv[k] == shapes.last());
                assert(shapes[shapes.len() - 1] == surv[k]);
            }
        }
    }
}

/// Collecting shapes keeps the remaining identities pairwise distinct and
/// below any bound that covered the original shapes.
proof fn lemma_surviving_ids(
    shapes: Seq<ShapeEntity>,
    bins: Seq<Station>,
    half_width: int,
    bound: int,
)
    requires
        ids_unique(shapes),
        ids_below(shapes, bound),
    ensures
        ids_unique(surviving_shapes(shapes, bins, half_width)),
        ids_below(surviving_shapes(shapes, bins, half_width), bound),
    decreases shapes.len(),
{
    reveal(Seq::filter);
    if shapes.len() == 0 {
    } else {
        let rest = shapes.drop_last();
        assert forall|i: int, j: int| 0 <= i < j < rest.len() implies (#[trigger] rest[i]).id != (
        #[trigger] rest[j]).id by {
            assert(rest[i] == shapes[i] && rest[j] == shapes[j]);
        }
        assert forall|i: int| 0 <= i < rest.len() implies (#[trigger] rest[i]).id < bound by {
            assert(rest[i] == shapes[i]);
        }
        lemma_surviving_ids(rest, bins, half_width, bound);
        lemma_surviving_members(rest, bins, half_width);
        let surv = surviving_shapes(shapes, bins, half_width);
        let surv_rest = surviving_shapes(rest, bins, half_width);
        if survives(shapes.last(), bins, half_width) {
            assert(surv == surv_rest.push(shapes.last()));
            assert forall|k: int| 0 <= k < surv_rest.len() implies (#[trigger] surv_rest[k]).id
                != shapes.last().id by {
                assert(rest.contains(surv_rest[k]));
                let j = choose|j: int| 0 <= j < rest.len() && rest[j] == surv_rest[k];
                assert(shapes[j] == surv_rest[k]);
                assert(shapes[j].id != shapes[shapes.len() - 1].id);
            }
            assert forall|i: int, j: int| 0 <= i < j < surv.len() implies (#[trigger] surv[i]).id
                != (#[trigger] surv[j]).id by {
                if j < surv_rest.len() {
                    assert(surv[i] == surv_rest[i] && surv[j] == surv_rest[j]);
                } else {
                    assert(surv[j] == shapes.last());
                    assert(surv[i] == surv_rest[i]);
                }
            }
            assert forall|i: int| 0 <= i < surv.len() implies (#[trigger] surv[i]).id < bound by {
                if i < surv_rest.len() {
                    assert(surv[i] == surv_rest[i]);
                } else {
                    assert(surv[i] == shapes.last());
                    assert(shapes[shapes.len() - 1] == shapes.last());
                }
            }
        } else {
            assert(surv == surv_rest);
        }
    }
}

impl ConveyorWorld {
    /// Removes every shape whose position lies strictly inside some bin's
    /// capture interval; all other shapes stay, in their original order.
    /// Shapes can disappear through this pass alone.
    pub fn shapes_despawning_system(&mut self)
        requires
            old(self).wf(),
        ensures
            final(self).wf(),
            final(self).clock == old(self).clock,
            final(self).next_id == old(self).next_id,
            final(self).generators == old(self).generators,
            final(self).belts == old(self).belts,
            final(self).bins == old(self).bins,
            final(self).step == old(self).step,
            final(self).scale_by_delta_time == old(self).scale_by_delta_time,
            final(self).half_width == old(self).half_width,
            final(self).shapes@ == surviving_shapes(
                old(self).shapes@,
                old(self).bins@,
                old(self).half_width as int,
            ),
    {
        let mut kept: Vec<ShapeEntity> = Vec::new();
        let shape_count = self.shapes.len();
        proof {
            reveal(Seq::filter);
            assert(kept@ =~= surviving_shapes(
                self.shapes@.take(0),
                self.bins@,
                self.half_width as int,
            ));
        }
        let mut i: usize = 0;
        while i < shape_count
            invariant
                old(self).wf(),
                *self == *old(self),
                i <= shape_count,
                shape_count == self.shapes@.len(),
                kept@ == surviving_shapes(
                    self.shapes@.take(i as int),
                    self.bins@,
                    self.half_width as int,
                ),
            decreases shape_count - i,
        {
            let shape = self.shapes[i];
            let mut hit = false;
            let bin_count = self.bins.len();
            let mut b: usize = 0;
            while b < bin_count
                invariant
                    old(self).wf(),
                    *self == *old(self),
                    b <= bin_count,
                    bin_count == self.bins@.len(),
                    i < self.shapes@.len(),
                    shape == self.shapes@[i as int],
                    hit == exists|k: int|
                        0 <= k < b && captured(
                            shape.x as int,
                            (#[trigger] self.bins@[k]).x as int,
                            self.half_width as int,
                        ),
                decreases bin_count - b,
            {
                let bin = self.bins[b];
                if shape.x > bin.x - self.half_width && shape.x < bin.x + self.half_width {
                    hit = true;
                    proof {
                        assert(captured(
                            shape.x as int,
                            self.bins@[b as int].x as int,
                            self.half_width as int,
                        ));
                    }
                }
                b = b + 1;
            }
            if !hit {
                kept.push(shape);
            }
            proof {
                reveal(Seq::filter);
                let taken = self.shapes@.take(i as int + 1);
                assert(taken.drop_last() =~= self.shapes@.take(i as int));
                assert(taken.last() == shape);
                assert(hit == captured_by_any(
                    shape.x as int,
                    self.bins@,
                    self.half_width as int,
                ));
                assert(kept@ == surviving_shapes(taken, self.bins@, self.half_width as int));
            }
            i = i + 1;
        }
        proof {
            assert(self.shapes@.take(shape_count as int) =~= self.shapes@);
            lemma_surviving_ids(
                self.shapes@,
                self.bins@,
                self.half_width as int,
                self.next_id as int,
            );
        }
        self.shapes = kept;
    }
}

/// A shape cannot slip past a bin undetected. Once a move lands a shape's
/// position inside the closed interval around a bin's center, the shape is
/// captured on that frame or, if it landed exactly on the left edge, on the
/// next one, as long as the per-frame displacement does not exceed the full
/// capture width. A displacement of exactly the full capture width landing
/// exactly on the left edge would step from edge to edge, both outside the
/// open capture interval; the last hypothesis leaves that landing out.
pub proof fn lemma_no_pass_through(x0: int, bin_x: int, half_width: int, step: int)
    requires
        1 <= step,
        1 <= half_width,
        step <= 2 * half_width,
        x0 < bin_x - half_width,
        x0 + step >= bin_x - half_width,
        x0 + step > bin_x - half_width || step < 2 * half_width,
    ensures
        captured(x0 + step, bin_x, half_width) || captured(x0 + step + step, bin_x, half_width),
{
}

/// Over one frame the shape count is conserved except at the two sanctioned
/// points: moving changes no count, spawning adds exactly the spawned block,
/// and collection can only remove. So after a frame that spawned `spawned`
/// and then moved and collected, the count is at most the old count plus the
/// spawned count, and without a collection candidate it is exactly that.
pub proof fn lemma_shape_count_accounting(
    shapes: Seq<ShapeEntity>,
    spawned: Seq<ShapeEntity>,
    bins: Seq<Station>,
    half_width: int,
    displacement: int,
)
    ensures
        moved_seq(shapes + spawned, displacement).len() == shapes.len() + spawned.len(),
        surviving_shapes(moved_seq(shapes + spawned, displacement), bins, half_width).len()
            <= shapes.len() + spawned.len(),
        (forall|i: int|
            0 <= i < moved_seq(shapes + spawned, displacement).len() ==> survives(
                #[trigger] moved_seq(shapes + spawned, displacement)[i],
                bins,
                half_width,
            )) ==> surviving_shapes(moved_seq(shapes + spawned, displacement), bins, half_width)
            == moved_seq(shapes + spawned, displacement),
{
    broadcast use Seq::lemma_filter_len;

    let moved = moved_seq(shapes + spawned, displacement);
    assert(moved.len() == shapes.len() + spawned.len());
    if forall|i: int| 0 <= i < moved.len() ==> survives(#[trigger] moved[i], bins, half_width) {
        lemma_surviving_all(moved, bins, half_width);
    }
}

/// When no shape stands in a capture interval, collection removes nothing.
proof fn lemma_surviving_all(shapes: Seq<ShapeEntity>, bins: Seq<Station>, half_width: int)
    requires
        forall|i: int|
            0 <= i < shapes.len() ==> survives(#[trigger] shapes[i], bins, half_width),
    ensures
        surviving_shapes(shapes, bins, half_width) == shapes,
    decreases shapes.len(),
{
    reveal(Seq::filter);
    if shapes.len() == 0 {
    } else {
        let rest = shapes.drop_last();
        assert forall|i: int| 0 <= i < rest.len() implies survives(
            #[trigger] rest[i],
            bins,
            half_width,
        ) by {
            assert(rest[i] == shapes[i]);
        }
        lemma_surviving_all(rest, bins, half_width);
        assert(shapes[shapes.len() - 1] == shapes.last());
        assert(surviving_shapes(shapes, bins, half_width) =~= shapes);
    }
}

/// One spawn round: one shape per generator, in generator order, carrying
/// consecutive identities from `first_id` on.
pub open spec fn spawned_block(
    spawned: Seq<ShapeEntity>,
    generators: Seq<Station>,
    first_id: int,
) -> bool {
    &&& spawned.len() == generators.len()
    &&& forall|j: int|
        0 <= j < generators.len() ==> spawned_at(
            #[trigger] spawned[j],
            generators[j],
            first_id + j,
        )
}

impl ConveyorWorld {
    /// One whole simulation frame, in the order that keeps the passes
    /// consistent within a frame: spawn, then move, then collect. The shapes
    /// afterwards are exactly the previous shapes plus, on a fired clock, one
    /// fresh shape per generator, all moved right by the frame displacement,
    /// minus those that landed in a bin's capture interval.
    pub fn tick_frame(&mut self, elapsed: u64) -> (fired: bool)
        requires
            old(self).wf(),
            old(self).next_id + old(self).generators@.len() <= u64::MAX,
            old(self).motion_fits(elapsed as int),
            frame_displacement(old(self).step as int, old(self).scale_by_delta_time, elapsed as int)
                <= i64::MAX - COORD_LIMIT,
        ensures
            final(self).wf(),
            fired == tick_fires(old(self).clock.remaining as int, elapsed as int),
            final(self).clock.period == old(self).clock.period,
            final(self).clock.remaining == next_remaining(
                old(self).clock.remaining as int,
                old(self).clock.period as int,
                elapsed as int,
            ),
            final(self).generators == old(self).generators,
            final(self).belts == old(self).belts,
            final(self).bins == old(self).bins,
            final(self).step == old(self).step,
            final(self).scale_by_delta_time == old(self).scale_by_delta_time,
            final(self).half_width == old(self).half_width,
            !fired ==> final(self).next_id == old(self).next_id,
            fired ==> final(self).next_id == old(self).next_id + old(self).generators@.len(),
            !fired ==> final(self).shapes@ == surviving_shapes(
                moved_seq(
                    old(self).shapes@,
                    frame_displacement(
                        old(self).step as int,
                        old(self).scale_by_delta_time,
                        elapsed as int,
                    ),
                ),
                old(self).bins@,
                old(self).half_width as int,
            ),
            fired ==> exists|spawned: Seq<ShapeEntity>|
                spawned_block(spawned, old(self).generators@, old(self).next_id as int)
                    && final(self).shapes@ == surviving_shapes(
                    moved_seq(
                        old(self).shapes@ + spawned,
                        frame_displacement(
                            old(self).step as int,
                            old(self).scale_by_delta_time,
                            elapsed as int,
                        ),
                    ),
                    old(self).bins@,
                    old(self).half_width as int,
                ),
    {
        let ghost displacement = frame_displacement(
            old(self).step as int,
            old(self).scale_by_delta_time,
            elapsed as int,
        );
        let fired = self.shape_spawner_system(elapsed);
        let ghost mid = self.shapes@;
        proof {
            assert forall|i: int| 0 <= i < self.shapes@.len() implies (
            #[trigger] self.shapes@[i]).x + displacement <= i64::MAX by {
                if i < old(self).shapes@.len() {
                    assert(self.shapes@[i] == old(self).shapes@[i]);
                } else {
                    let j = i - old(self).shapes@.len();
                    assert(spawned_at(
                        self.shapes@[old(self).shapes@.len() + j],
                        old(self).generators@[j],
                        old(self).next_id + j,
                    ));
                    assert(station_in_range(old(self).generators@[j]));
                }
            }
        }
        self.shapes_movement_system(elapsed);
        self.shapes_despawning_system();
        proof {
            if fired {
                let spawned = mid.subrange(old(self).shapes@.len() as int, mid.len() as int);
                assert(mid =~= old(self).shapes@ + spawned);
                assert forall|j: int| 0 <= j < old(self).generators@.len() implies spawned_at(
                    #[trigger] spawned[j],
                    old(self).generators@[j],
                    old(self).next_id + j,
                ) by {
                    assert(spawned[j] == mid[old(self).shapes@.len() + j]);
                }
                assert(spawned_block(spawned, old(self).generators@, old(self).next_id as int));
            } else {
                assert(mid == old(self).shapes@);
            }
        }
        fired
    }
}

} // verus!
