//! Gameplay options and the small value types the option editor adjusts.
use vstd::prelude::*;
use vstd::string::StrSliceExecFns;
use vstd::string::StringExecFns;
use crate::geom::Bounds;
use crate::MAX_FRUITS;

verus! {

/// The number of fruits present in a level at one time.  The value is
/// restricted to between 1 and [`MAX_FRUITS`] inclusive.
#[derive(Clone, Copy, Debug, PartialEq, Eq, Structural)]
pub struct FruitQty(usize);

impl FruitQty {
    pub closed spec fn spec_get(self) -> int {
        self.0 as int
    }

    /// The quantity stays between 1 and [`MAX_FRUITS`] inclusive.
    pub open spec fn wf(self) -> bool {
        1 <= self.spec_get() <= MAX_FRUITS
    }

    /// A new `FruitQty` with the given value, or `None` if `qty` is out of
    /// bounds.
    pub fn new(qty: usize) -> (r: Option<FruitQty>)
        ensures
            (r is Some) <==> 1 <= qty <= MAX_FRUITS,
            r matches Some(f) ==> f.spec_get() == qty && f.wf(),
    {
        if 1 <= qty && qty <= MAX_FRUITS {
            Some(FruitQty(qty))
        } else {
            None
        }
    }

    /// The quantity as a `usize`.
    pub fn get(self) -> (r: usize)
        ensures
            r == self.spec_get(),
    {
        self.0
    }

    /// Add one fruit, if the maximum has not been reached.
    pub fn increase(&mut self)
        requires
            old(self).wf(),
        ensures
            final(self).wf(),
            final(self).spec_get() == if old(self).spec_get() < MAX_FRUITS {
                old(self).spec_get() + 1
            } else {
                old(self).spec_get()
            },
    {
        if self.0 < MAX_FRUITS {
            self.0 = self.0 + 1;
        }
    }

    /// Remove one fruit, if more than one would remain.
    pub fn decrease(&mut self)
        requires
            old(self).wf(),
        ensures
            final(self).wf(),
            final(self).spec_get() == if old(self).spec_get() > 1 {
                old(self).spec_get() - 1
            } else {
                old(self).spec_get()
            },
    {
        if self.0 > 1 {
            self.0 = self.0 - 1;
        }
    }

    /// Would `increase` change the value?
    pub fn can_increase(&self) -> (r: bool)
        ensures
            r == (self.spec_get() < MAX_FRUITS),
    {
        self.0 < MAX_FRUITS
    }

    /// Would `decrease` change the value?
    pub fn can_decrease(&self) -> (r: bool)
        ensures
            r == (self.spec_get() > 1),
    {
        self.0 > 1
    }
}

impl Default for FruitQty {
    /// One fruit.
    fn default() -> (r: FruitQty)
        ensures
            r.spec_get() == 1,
            r.wf(),
    {
        FruitQty(1)
    }
}

/// Possible level sizes that the user can choose from.
#[derive(Clone, Copy, Debug, PartialEq, Eq, Structural)]
pub enum LevelSize {
    /// A 38 by 8 level.
    Small,
    /// A 53 by 12 level.
    Medium,
    /// A 76 by 19 level.
    Large,
}

impl LevelSize {
    /// The width of a level of this size, in cells.
    pub fn width(self) -> (w: u16)
        ensures
            w == self.spec_width(),
    {
        match self {
            LevelSize::Small => 38,
            LevelSize::Medium => 53,
            LevelSize::Large => 76,
        }
    }

    pub open spec fn spec_width(self) -> u16 {
        match self {
            LevelSize::Small => 38u16,
            LevelSize::Medium => 53u16,
            LevelSize::Large => 76u16,
        }
    }

    /// The height of a level of this size, in cells.
    pub fn height(self) -> (h: u16)
        ensures
            h == self.spec_height(),
    {
        match self {
            LevelSize::Small => 8,
            LevelSize::Medium => 12,
            LevelSize::Large => 19,
        }
    }

    pub open spec fn spec_height(self) -> u16 {
        match self {
            LevelSize::Small => 8u16,
            LevelSize::Medium => 12u16,
            LevelSize::Large => 19u16,
        }
    }

    /// A human-readable name for the size.
    pub fn as_str(self) -> (r: &'static str)
        ensures
            self is Small ==> r@ == "Small"@,
            self is Medium ==> r@ == "Medium"@,
            self is Large ==> r@ == "Large"@,
    {
        match self {
            LevelSize::Small => "Small",
            LevelSize::Medium => "Medium",
            LevelSize::Large => "Large",
        }
    }

    /// The size's name, padded on the right with spaces to at least
    /// `width` columns, as the options menu lays it out.
    pub fn padded(self, width: usize) -> (r: String)
        ensures
            self is Small ==> r@ == spec_padded("Small"@, width as int),
            self is Medium ==> r@ == spec_padded("Medium"@, width as int),
            self is Large ==> r@ == spec_padded("Large"@, width as int),
            r@.len() >= width,
    {
        pad_right(self.as_str(), width)
    }

    /// Step up to the next larger size, if any.
    pub fn increase(&mut self)
        ensures
            *final(self) == (match *old(self) {
                LevelSize::Small => LevelSize::Medium,
                LevelSize::Medium => LevelSize::Large,
                LevelSize::Large => LevelSize::Large,
            }),
    {
        match self {
            LevelSize::Small => *self = LevelSize::Medium,
            LevelSize::Medium => *self = LevelSize::Large,
            LevelSize::Large => (),
        }
    }

    /// Step down to the next smaller size, if any.
    pub fn decrease(&mut self)
        ensures
            *final(self) == (match *old(self) {
                LevelSize::Small => LevelSize::Small,
                LevelSize::Medium => LevelSize::Small,
                LevelSize::Large => LevelSize::Medium,
            }),
    {
        match self {
            LevelSize::Small => (),
            LevelSize::Medium => *self = LevelSize::Small,
            LevelSize::Large => *self = LevelSize::Medium,
        }
    }

    /// Would `increase` change the value?
    pub fn can_increase(&self) -> (r: bool)
        ensures
            r == !(*self is Large),
    {
        match self {
            LevelSize::Large => false,
            _ => true,
        }
    }

    /// Would `decrease` change the value?
    pub fn can_decrease(&self) -> (r: bool)
        ensures
            r == !(*self is Small),
    {
        match self {
            LevelSize::Small => false,
            _ => true,
        }
    }
}

impl Default for LevelSize {
    /// The largest level.
    fn default() -> (r: LevelSize)
        ensures
            r == LevelSize::Large,
    {
        LevelSize::Large
    }
}

/// `s` padded on the right with spaces to at least `width` characters.
pub open spec fn spec_padded(s: Seq<char>, width: int) -> Seq<char> {
    if s.len() >= width {
        s
    } else {
        s + Seq::new((width - s.len()) as nat, |i: int| ' ')
    }
}

/// Pad `base` on the right with spaces to at least `width` characters.
pub fn pad_right(base: &str, width: usize) -> (r: String)
    ensures
        r@ == spec_padded(base@, width as int),
{
    let r = pad_right_inner(base, width);
    proof {
        assert(r@ =~= spec_padded(base@, width as int));
    }
    r
}

/// The padding loop behind [`pad_right`], specified pointwise.
fn pad_right_inner(base: &str, width: usize) -> (r: String)
    ensures
        r@.len() == if base@.len() >= width {
            base@.len()
        } else {
            width as nat
        },
        r@.subrange(0, base@.len() as int) == base@,
        forall|i: int| base@.len() <= i < r@.len() ==> r@[i] == ' ',
{
    let mut s = String::from_str(base);
    let mut n = base.unicode_len();
    while n < width
        invariant
            n == s@.len(),
            n >= base@.len(),
            if base@.len() >= width {
                n == base@.len()
            } else {
                n <= width
            },
            s@.subrange(0, base@.len() as int) == base@,
            forall|i: int| base@.len() <= i < s@.len() ==> s@[i] == ' ',
        decreases width - n,
    {
        let ghost prev = s@;
        s.append(" ");
        proof {
            reveal_strlit(" ");
            assert(s@.subrange(0, base@.len() as int) =~= prev.subrange(
                0,
                base@.len() as int,
            ));
        }
        n = n + 1;
    }
    s
}

/// Gameplay options.
#[derive(Clone, Copy, Debug, PartialEq, Eq, Structural)]
pub struct Options {
    /// Should levels wrap around at the borders?
    pub wraparound: bool,
    /// Should randomly-generated obstacles be placed in levels?
    pub obstacles: bool,
    /// Number of fruits present in a level at one time.
    pub fruits: FruitQty,
    /// Size of levels.
    pub level_size: LevelSize,
}

impl Options {
    pub open spec fn wf(self) -> bool {
        self.fruits.wf()
    }

    /// The default path of the file in which gameplay options are
    /// stored, or `None` if the platform defines no data directory.
    pub fn default_path() -> (r: Option<String>)
        ensures
            r matches Some(s) ==> crate::paths::spec_ends_with(
                s@,
                "/ratsnake/options.json"@,
            ),
    {
        crate::paths::default_options_path()
    }

    /// The value of the given option, as an [`OptValue`].
    pub fn get(&self, key: OptKey) -> (r: OptValue)
        ensures
            r == (match key {
                OptKey::Wraparound => OptValue::Bool(self.wraparound),
                OptKey::Obstacles => OptValue::Bool(self.obstacles),
                OptKey::Fruits => OptValue::FruitQty(self.fruits),
                OptKey::LevelSize => OptValue::LevelSize(self.level_size),
            }),
    {
        match key {
            OptKey::Wraparound => OptValue::Bool(self.wraparound),
            OptKey::Obstacles => OptValue::Bool(self.obstacles),
            OptKey::Fruits => OptValue::FruitQty(self.fruits),
            OptKey::LevelSize => OptValue::LevelSize(self.level_size),
        }
    }

    /// Set the option `key` to `value`.  The `value` variant must be the
    /// one that `key` requires.
    pub fn set(&mut self, key: OptKey, value: OptValue)
        requires
            key is Wraparound || key is Obstacles ==> value is Bool,
            key is Fruits ==> value is FruitQty,
            key is LevelSize ==> value is LevelSize,
        ensures
            *final(self) == (match (key, value) {
                (OptKey::Wraparound, OptValue::Bool(b)) => Options {
                    wraparound: b,
                    ..*old(self)
                },
                (OptKey::Obstacles, OptValue::Bool(b)) => Options {
                    obstacles: b,
                    ..*old(self)
                },
                (OptKey::Fruits, OptValue::FruitQty(f)) => Options {
                    fruits: f,
                    ..*old(self)
                },
                (OptKey::LevelSize, OptValue::LevelSize(s)) => Options {
                    level_size: s,
                    ..*old(self)
                },
                _ => *old(self),
            }),
    {
        match (key, value) {
            (OptKey::Wraparound, OptValue::Bool(b)) => self.wraparound = b,
            (OptKey::Obstacles, OptValue::Bool(b)) => self.obstacles = b,
            (OptKey::Fruits, OptValue::FruitQty(f)) => self.fruits = f,
            (OptKey::LevelSize, OptValue::LevelSize(s)) => self.level_size = s,
            _ => (),
        }
    }

    /// The level bounds that the options configure: the dimensions of the
    /// chosen level size, with the wraparound flag.
    pub fn level_bounds(&self) -> (b: Bounds)
        ensures
            b.width == self.level_size.spec_width(),
            b.height == self.level_size.spec_height(),
            b.wrap == self.wraparound,
            b.wf(),
    {
        Bounds::new(self.level_size.width(), self.level_size.height(), self.wraparound)
    }
}

impl Default for Options {
    /// No wraparound, no obstacles, one fruit, a large level.
    fn default() -> (r: Options)
        ensures
            r.wraparound == false,
            r.obstacles == false,
            r.fruits.spec_get() == 1,
            r.level_size == LevelSize::Large,
            r.wf(),
    {
        Options {
            wraparound: false,
            obstacles: false,
            fruits: FruitQty::default(),
            level_size: LevelSize::default(),
        }
    }
}

/// An enum of the individual option fields in [`Options`].
#[derive(Clone, Copy, Debug, PartialEq, Eq, Structural)]
pub enum OptKey {
    Wraparound,
    Obstacles,
    Fruits,
    LevelSize,
}

impl OptKey {
    /// The maximum display column width of any option name.
    pub const DISPLAY_WIDTH: u16 = 10;

    /// A human-readable name for the option.
    pub fn as_str(&self) -> (r: &'static str)
        ensures
            *self is Wraparound ==> r@ == "Wraparound"@,
            *self is Obstacles ==> r@ == "Obstacles"@,
            *self is Fruits ==> r@ == "Fruits"@,
            *self is LevelSize ==> r@ == "Level Size"@,
    {
        match self {
            OptKey::Wraparound => "Wraparound",
            OptKey::Obstacles => "Obstacles",
            OptKey::Fruits => "Fruits",
            OptKey::LevelSize => "Level Size",
        }
    }

    /// The option's name, padded on the right with spaces to at least
    /// `width` columns, as the options menu lays it out.
    pub fn padded(&self, width: usize) -> (r: String)
        ensures
            *self is Wraparound ==> r@ == spec_padded("Wraparound"@, width as int),
            *self is Obstacles ==> r@ == spec_padded("Obstacles"@, width as int),
            *self is Fruits ==> r@ == spec_padded("Fruits"@, width as int),
            *self is LevelSize ==> r@ == spec_padded("Level Size"@, width as int),
            r@.len() >= width,
    {
        pad_right(self.as_str(), width)
    }

    /// The first option in display order.
    pub fn first() -> (r: OptKey)
        ensures
            r == OptKey::Wraparound,
    {
        OptKey::Wraparound
    }

    /// The last option in display order.
    pub fn last() -> (r: OptKey)
        ensures
            r == OptKey::LevelSize,
    {
        OptKey::LevelSize
    }

    /// The option after this one in display order, if any.
    pub fn next(self) -> (r: Option<OptKey>)
        ensures
            r == (match self {
                OptKey::Wraparound => Some(OptKey::Obstacles),
                OptKey::Obstacles => Some(OptKey::Fruits),
                OptKey::Fruits => Some(OptKey::LevelSize),
                OptKey::LevelSize => None::<OptKey>,
            }),
    {
        match self {
            OptKey::Wraparound => Some(OptKey::Obstacles),
            OptKey::Obstacles => Some(OptKey::Fruits),
            OptKey::Fruits => Some(OptKey::LevelSize),
            OptKey::LevelSize => None,
        }
    }

    /// The option before this one in display order, if any.
    pub fn prev(self) -> (r: Option<OptKey>)
        ensures
            r == (match self {
                OptKey::Wraparound => None::<OptKey>,
                OptKey::Obstacles => Some(OptKey::Wraparound),
                OptKey::Fruits => Some(OptKey::Obstacles),
                OptKey::LevelSize => Some(OptKey::Fruits),
            }),
    {
        match self {
            OptKey::Wraparound => None,
            OptKey::Obstacles => Some(OptKey::Wraparound),
            OptKey::Fruits => Some(OptKey::Obstacles),
            OptKey::LevelSize => Some(OptKey::Fruits),
        }
    }

    /// All options in display order.
    pub fn all() -> (r: Vec<OptKey>)
        ensures
            r@ == seq![OptKey::Wraparound, OptKey::Obstacles, OptKey::Fruits, OptKey::LevelSize],
    {
        let mut v: Vec<OptKey> = Vec::new();
        v.push(OptKey::Wraparound);
        v.push(OptKey::Obstacles);
        v.push(OptKey::Fruits);
        v.push(OptKey::LevelSize);
        proof {
            assert(v@ =~= seq![
                OptKey::Wraparound,
                OptKey::Obstacles,
                OptKey::Fruits,
                OptKey::LevelSize,
            ]);
        }
        v
    }
}

/// `s2` is `s` with the option at `k` raised one step: a flag turned on,
/// or a quantity or size stepped up within its range.
pub open spec fn spec_increased_options(s: Options, k: OptKey, s2: Options) -> bool {
    match k {
        OptKey::Wraparound => s2 == (Options { wraparound: true, ..s }),
        OptKey::Obstacles => s2 == (Options { obstacles: true, ..s }),
        OptKey::Fruits => {
            &&& s2.wraparound == s.wraparound
            &&& s2.obstacles == s.obstacles
            &&& s2.level_size == s.level_size
            &&& s2.fruits.spec_get() == if s.fruits.spec_get() < MAX_FRUITS {
                s.fruits.spec_get() + 1
            } else {
                s.fruits.spec_get()
            }
        },
        OptKey::LevelSize => s2 == (Options {
            level_size: match s.level_size {
                LevelSize::Small => LevelSize::Medium,
                LevelSize::Medium => LevelSize::Large,
                LevelSize::Large => LevelSize::Large,
            },
            ..s
        }),
    }
}

/// `s2` is `s` with the option at `k` lowered one step: a flag turned
/// off, or a quantity or size stepped down within its range.
pub open spec fn spec_decreased_options(s: Options, k: OptKey, s2: Options) -> bool {
    match k {
        OptKey::Wraparound => s2 == (Options { wraparound: false, ..s }),
        OptKey::Obstacles => s2 == (Options { obstacles: false, ..s }),
        OptKey::Fruits => {
            &&& s2.wraparound == s.wraparound
            &&& s2.obstacles == s.obstacles
            &&& s2.level_size == s.level_size
            &&& s2.fruits.spec_get() == if s.fruits.spec_get() > 1 {
                s.fruits.spec_get() - 1
            } else {
                s.fruits.spec_get()
            }
        },
        OptKey::LevelSize => s2 == (Options {
            level_size: match s.level_size {
                LevelSize::Small => LevelSize::Small,
                LevelSize::Medium => LevelSize::Small,
                LevelSize::Large => LevelSize::Medium,
            },
            ..s
        }),
    }
}

/// `s2` is `s` with the option at `k` toggled: a flag negated, anything
/// else untouched.
pub open spec fn spec_toggled_options(s: Options, k: OptKey, s2: Options) -> bool {
    match k {
        OptKey::Wraparound => s2 == (Options { wraparound: !s.wraparound, ..s }),
        OptKey::Obstacles => s2 == (Options { obstacles: !s.obstacles, ..s }),
        OptKey::Fruits => s2 == s,
        OptKey::LevelSize => s2 == s,
    }
}

/// An enum of the value types used by [`Options`].
#[derive(Clone, Copy, Debug, PartialEq, Eq, Structural)]
pub enum OptValue {
    Bool(bool),
    FruitQty(FruitQty),
    LevelSize(LevelSize),
}

impl OptValue {
    /// The display column width of every rendered option value.
    pub const DISPLAY_WIDTH: u16 = 10;

    pub open spec fn wf(self) -> bool {
        match self {
            OptValue::FruitQty(f) => f.wf(),
            _ => true,
        }
    }

    /// Raise the value: turn a flag on, or step a quantity or size up.
    pub fn increase(&mut self)
        requires
            old(self).wf(),
        ensures
            final(self).wf(),
            *old(self) matches OptValue::Bool(_) ==> *final(self) == OptValue::Bool(true),
            *old(self) matches OptValue::FruitQty(f) ==> (*final(self))
                matches OptValue::FruitQty(f2) && f2.spec_get() == (if f.spec_get()
                < MAX_FRUITS {
                f.spec_get() + 1
            } else {
                f.spec_get()
            }),
            *old(self) matches OptValue::LevelSize(s) ==> *final(self) == OptValue::LevelSize(
                match s {
                    LevelSize::Small => LevelSize::Medium,
                    LevelSize::Medium => LevelSize::Large,
                    LevelSize::Large => LevelSize::Large,
                },
            ),
    {
        match self {
            OptValue::Bool(b) => *b = true,
            OptValue::FruitQty(f) => f.increase(),
            OptValue::LevelSize(s) => s.increase(),
        }
    }

    /// Lower the value: turn a flag off, or step a quantity or size down.
    pub fn decrease(&mut self)
        requires
            old(self).wf(),
        ensures
            final(self).wf(),
            *old(self) matches OptValue::Bool(_) ==> *final(self) == OptValue::Bool(false),
            *old(self) matches OptValue::FruitQty(f) ==> (*final(self))
                matches OptValue::FruitQty(f2) && f2.spec_get() == (if f.spec_get() > 1 {
                f.spec_get() - 1
            } else {
                f.spec_get()
            }),
            *old(self) matches OptValue::LevelSize(s) ==> *final(self) == OptValue::LevelSize(
                match s {
                    LevelSize::Small => LevelSize::Small,
                    LevelSize::Medium => LevelSize::Small,
                    LevelSize::Large => LevelSize::Medium,
                },
            ),
    {
        match self {
            OptValue::Bool(b) => *b = false,
            OptValue::FruitQty(f) => f.decrease(),
            OptValue::LevelSize(s) => s.decrease(),
        }
    }

    /// Toggle a flag value; quantities and sizes are unaffected.
    pub fn toggle(&mut self)
        requires
            old(self).wf(),
        ensures
            final(self).wf(),
            *final(self) == (match *old(self) {
                OptValue::Bool(b) => OptValue::Bool(!b),
                other => other,
            }),
    {
        match self {
            OptValue::Bool(b) => *b = !*b,
            _ => (),
        }
    }

    /// Would `increase` change the value?
    pub fn can_increase(&self) -> (r: bool)
        ensures
            r == (match *self {
                OptValue::Bool(b) => !b,
                OptValue::FruitQty(f) => f.spec_get() < MAX_FRUITS,
                OptValue::LevelSize(s) => !(s is Large),
            }),
    {
        match self {
            OptValue::Bool(b) => !*b,
            OptValue::FruitQty(f) => f.can_increase(),
            OptValue::LevelSize(s) => s.can_increase(),
        }
    }

    /// Would `decrease` change the value?
    pub fn can_decrease(&self) -> (r: bool)
        ensures
            r == (match *self {
                OptValue::Bool(b) => b,
                OptValue::FruitQty(f) => f.spec_get() > 1,
                OptValue::LevelSize(s) => !(s is Small),
            }),
    {
        match self {
            OptValue::Bool(b) => *b,
            OptValue::FruitQty(f) => f.can_decrease(),
            OptValue::LevelSize(s) => s.can_decrease(),
        }
    }

    /// Render the value for the options menu, always exactly
    /// [`DISPLAY_WIDTH`][Self::DISPLAY_WIDTH] columns wide: flags as a
    /// checkbox, quantities and sizes between stepper arrows that show
    /// whether another step is possible.
    pub fn display(&self) -> (r: String)
        requires
            self.wf(),
        ensures
            r@.len() == Self::DISPLAY_WIDTH,
            *self == OptValue::Bool(false) ==> r@ == "   [ ]    "@,
            *self == OptValue::Bool(true) ==> r@ == "   [\u{2713}]    "@,
            *self matches OptValue::FruitQty(f) ==> r@ == (if f.spec_get() > 1 {
                "\u{25c0}"@
            } else {
                "\u{25c1}"@
            }) + " "@ + spec_qty_label(f.spec_get()) + " "@ + (if f.spec_get() < MAX_FRUITS {
                "\u{25b6}"@
            } else {
                "\u{25b7}"@
            }),
            *self matches OptValue::LevelSize(sz) ==> r@ == (if !(sz is Small) {
                "\u{25c0}"@
            } else {
                "\u{25c1}"@
            }) + " "@ + spec_padded(spec_size_label(sz), 6) + " "@ + (if !(sz is Large) {
                "\u{25b6}"@
            } else {
                "\u{25b7}"@
            }),
    {
        match self {
            OptValue::Bool(false) => {
                let r = String::from_str("   [ ]    ");
                proof {
                    reveal_strlit("   [ ]    ");
                }
                r
            }
            OptValue::Bool(true) => {
                let r = String::from_str("   [\u{2713}]    ");
                proof {
                    reveal_strlit("   [\u{2713}]    ");
                }
                r
            }
            OptValue::FruitQty(f) => {
                let left: &str = if f.can_decrease() {
                    "\u{25c0}"
                } else {
                    "\u{25c1}"
                };
                let right: &str = if f.can_increase() {
                    "\u{25b6}"
                } else {
                    "\u{25b7}"
                };
                proof {
                    reveal_strlit("\u{25c0}");
                    reveal_strlit("\u{25c1}");
                    reveal_strlit("\u{25b6}");
                    reveal_strlit("\u{25b7}");
                    reveal_strlit(" ");
                }
                let mut s = String::from_str(left);
                s.append(" ");
                s.append(qty_label(f.get()));
                s.append(" ");
                s.append(right);
                s
            }
            OptValue::LevelSize(sz) => {
                let left: &str = if sz.can_decrease() {
                    "\u{25c0}"
                } else {
                    "\u{25c1}"
                };
                let right: &str = if sz.can_increase() {
                    "\u{25b6}"
                } else {
                    "\u{25b7}"
                };
                proof {
                    reveal_strlit("\u{25c0}");
                    reveal_strlit("\u{25c1}");
                    reveal_strlit("\u{25b6}");
                    reveal_strlit("\u{25b7}");
                    reveal_strlit(" ");
                    reveal_strlit("Small");
                    reveal_strlit("Medium");
                    reveal_strlit("Large");
                }
                let mut s = String::from_str(left);
                s.append(" ");
                let label = pad_right(sz.as_str(), 6);
                s.append(label.as_str());
                s.append(" ");
                s.append(right);
                s
            }
        }
    }
}

/// The fruit quantity centered in a six-column field.
pub open spec fn spec_qty_label(q: int) -> Seq<char> {
    if q == 1 {
        "  1   "@
    } else if q == 2 {
        "  2   "@
    } else if q == 3 {
        "  3   "@
    } else if q == 4 {
        "  4   "@
    } else if q == 5 {
        "  5   "@
    } else if q == 6 {
        "  6   "@
    } else if q == 7 {
        "  7   "@
    } else if q == 8 {
        "  8   "@
    } else if q == 9 {
        "  9   "@
    } else {
        "  10  "@
    }
}

/// The name of a level size, as [`LevelSize::as_str`] returns it.
pub open spec fn spec_size_label(sz: LevelSize) -> Seq<char> {
    match sz {
        LevelSize::Small => "Small"@,
        LevelSize::Medium => "Medium"@,
        LevelSize::Large => "Large"@,
    }
}

/// The fruit quantity centered in a six-column field, as the options menu
/// shows it.
fn qty_label(q: usize) -> (s: &'static str)
    requires
        1 <= q <= MAX_FRUITS,
    ensures
        s@ == spec_qty_label(q as int),
        s@.len() == 6,
{
    proof {
        reveal_strlit("  1   ");
        reveal_strlit("  2   ");
        reveal_strlit("  3   ");
        reveal_strlit("  4   ");
        reveal_strlit("  5   ");
        reveal_strlit("  6   ");
        reveal_strlit("  7   ");
        reveal_strlit("  8   ");
        reveal_strlit("  9   ");
        reveal_strlit("  10  ");
    }
    match q {
        1 => "  1   ",
        2 => "  2   ",
        3 => "  3   ",
        4 => "  4   ",
        5 => "  5   ",
        6 => "  6   ",
        7 => "  7   ",
        8 => "  8   ",
        9 => "  9   ",
        _ => "  10  ",
    }
}

} // verus!
