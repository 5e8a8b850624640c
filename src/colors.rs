use vstd::prelude::*;

verus! {

/// Why a color could not be built.
#[derive(Clone, Copy, Debug, PartialEq, Eq, Structural)]
pub enum ColorError {
    /// A channel was given a value above 255.
    ChannelOutOfBounds,
    /// `mix` was handed no colors at all.
    NothingToMix,
}

/// An RGBA color with four integer channels, each in `0..=255`.
#[derive(Clone, Copy, Debug)]
pub struct Color {
    channels: [u32; 4],
}

/// A color channel holds a value in `0..=255`.
pub open spec fn channel_in_range(value: u32) -> bool {
    value <= 255
}

impl View for Color {
    /// The four channels, red, green, blue and alpha, in that order.
    type V = Seq<u32>;

    closed spec fn view(&self) -> Seq<u32> {
        self.channels@
    }
}

/// The sum of channel `k` over a sequence of colors.
pub open spec fn channel_sum(colors: Seq<Color>, k: int) -> int
    decreases colors.len(),
{
    if colors.len() == 0 {
        0
    } else {
        channel_sum(colors.drop_last(), k) + colors.last()@[k]
    }
}

/// The channel-wise average of a sequence of colors, with truncating division (meant for a
/// non-empty sequence).
pub open spec fn mix_of(colors: Seq<Color>) -> Seq<u32> {
    Seq::new(4, |k: int| (channel_sum(colors, k) / (colors.len() as int)) as u32)
}

impl Color {
    #[verifier::type_invariant]
    spec fn channels_in_range(self) -> bool {
        forall|k: int| 0 <= k < 4 ==> channel_in_range(#[trigger] self.channels@[k])
    }

    fn rgba_value_within_bounds(value: u32) -> (r: bool)
        ensures
            r == channel_in_range(value),
    {
        value <= 255
    }

    /// An opaque color: alpha is 255.
    pub fn new(r: u32, g: u32, b: u32) -> (res: Result<Color, ColorError>)
        ensures
            res is Ok <==> (channel_in_range(r) && channel_in_range(g) && channel_in_range(b)),
            res matches Ok(c) ==> c@ == seq![r, g, b, 255u32],
            res is Err ==> res == Err::<Color, ColorError>(ColorError::ChannelOutOfBounds),
    {
        Self::with_alpha(r, g, b, 255)
    }

    /// A color from its four channels; fails when any of them exceeds 255.
    pub fn with_alpha(r: u32, g: u32, b: u32, a: u32) -> (res: Result<Color, ColorError>)
        ensures
            res is Ok <==> (channel_in_range(r) && channel_in_range(g) && channel_in_range(b)
                && channel_in_range(a)),
            res matches Ok(c) ==> c@ == seq![r, g, b, a],
            res is Err ==> res == Err::<Color, ColorError>(ColorError::ChannelOutOfBounds),
    {
        if !Self::rgba_value_within_bounds(r) || !Self::rgba_value_within_bounds(g)
            || !Self::rgba_value_within_bounds(b) || !Self::rgba_value_within_bounds(a) {
            return Err(ColorError::ChannelOutOfBounds);
        }
        let c = Color { channels: [r, g, b, a] };
        assert(c@ =~= seq![r, g, b, a]);
        Ok(c)
    }

    /// The four channels, red, green, blue and alpha.
    pub fn as_slice(&self) -> (r: &[u32; 4])
        ensures
            r@ == self@,
            r@.len() == 4,
            forall|k: int| 0 <= k < 4 ==> channel_in_range(#[trigger] r@[k]),
    {
        proof {
            use_type_invariant(self);
        }
        &self.channels
    }

    /// The channel-wise average of `colors`, alpha included, with truncating division.
    pub fn mix(colors: &[Color]) -> (res: Result<Color, ColorError>)
        ensures
            colors@.len() == 0 ==> res == Err::<Color, ColorError>(ColorError::NothingToMix),
            colors@.len() > 0 ==> (res matches Ok(c) && c@ == mix_of(colors@)),
    {
        let n = colors.len();
        if n == 0 {
            return Err(ColorError::NothingToMix);
        }
        let mut sums: (u128, u128, u128, u128) = (0, 0, 0, 0);
        let mut i: usize = 0;
        while i < n
            invariant
                n == colors@.len(),
                0 <= i <= n,
                sums.0 == channel_sum(colors@.take(i as int), 0),
                sums.1 == channel_sum(colors@.take(i as int), 1),
                sums.2 == channel_sum(colors@.take(i as int), 2),
                sums.3 == channel_sum(colors@.take(i as int), 3),
                sums.0 <= 255 * i,
                sums.1 <= 255 * i,
                sums.2 <= 255 * i,
                sums.3 <= 255 * i,
            decreases n - i,
        {
            let color = &colors[i];
            proof {
                use_type_invariant(color);
                assert(colors@.take(i + 1).drop_last() =~= colors@.take(i as int));
            }
            sums = (
                sums.0 + color.channels[0] as u128,
                sums.1 + color.channels[1] as u128,
                sums.2 + color.channels[2] as u128,
                sums.3 + color.channels[3] as u128,
            );
            i = i + 1;
        }
        assert(colors@.take(n as int) =~= colors@);
        let count = n as u128;
        proof {
            lemma_average_bound(sums.0 as int, n as int);
            lemma_average_bound(sums.1 as int, n as int);
            lemma_average_bound(sums.2 as int, n as int);
            lemma_average_bound(sums.3 as int, n as int);
        }
        let res = Color::with_alpha(
            (sums.0 / count) as u32,
            (sums.1 / count) as u32,
            (sums.2 / count) as u32,
            (sums.3 / count) as u32,
        );
        assert(res matches Ok(c) && c@ =~= mix_of(colors@));
        res
    }
}

impl PartialEq for Color {
    fn eq(&self, other: &Color) -> (r: bool) {
        let r = self.channels[0] == other.channels[0] && self.channels[1] == other.channels[1]
            && self.channels[2] == other.channels[2] && self.channels[3] == other.channels[3];
        assert(r == (self@ =~= other@));
        r
    }
}

impl vstd::std_specs::cmp::PartialEqSpecImpl for Color {
    open spec fn obeys_eq_spec() -> bool {
        true
    }

    open spec fn eq_spec(&self, other: &Color) -> bool {
        self@ == other@
    }
}

/// Mixing does not depend on the order of the colors: two sequences holding the same
/// colors, each as many times, mix to the same color.
pub proof fn mix_is_order_independent(a: Seq<Color>, b: Seq<Color>)
    requires
        a.to_multiset() == b.to_multiset(),
    ensures
        mix_of(a) == mix_of(b),
{
    broadcast use vstd::seq_lib::group_to_multiset_ensures;

    assert(a.len() == a.to_multiset().len());
    assert(b.len() == b.to_multiset().len());
    assert forall|k: int| 0 <= k < 4 implies channel_sum(a, k) == channel_sum(b, k) by {
        lemma_channel_sum_permutation(a, b, k);
    }
    assert(mix_of(a) =~= mix_of(b));
}

/// Mixing a single color gives that color back.
pub proof fn mix_of_one(c: Color)
    ensures
        mix_of(seq![c]) == c@,
{
    assert(c@.len() == 4);
    assert forall|k: int| 0 <= k < 4 implies channel_sum(seq![c], k) == c@[k] by {
        assert(seq![c].drop_last() =~= Seq::<Color>::empty());
        assert(channel_sum(Seq::<Color>::empty(), k) == 0);
        assert(seq![c].last() == c);
    }
    assert(mix_of(seq![c]) =~= c@);
}

proof fn lemma_channel_sum_remove(s: Seq<Color>, i: int, k: int)
    requires
        0 <= i < s.len(),
    ensures
        channel_sum(s, k) == channel_sum(s.remove(i), k) + s[i]@[k],
    decreases s.len(),
{
    if i == s.len() - 1 {
        assert(s.remove(i) =~= s.drop_last());
    } else {
        assert(s.remove(i).drop_last() =~= s.drop_last().remove(i));
        lemma_channel_sum_remove(s.drop_last(), i, k);
    }
}

proof fn lemma_channel_sum_permutation(a: Seq<Color>, b: Seq<Color>, k: int)
    requires
        a.to_multiset() == b.to_multiset(),
    ensures
        channel_sum(a, k) == channel_sum(b, k),
    decreases a.len(),
{
    broadcast use vstd::seq_lib::group_to_multiset_ensures;

    if a.len() == 0 {
        assert(a.to_multiset().len() == 0);
        assert(b.len() == b.to_multiset().len());
    } else {
        let x = a.last();
        let rest = a.drop_last();
        assert(rest.push(x) =~= a);
        assert(a.to_multiset() =~= rest.to_multiset().insert(x));
        assert(b.to_multiset().count(x) > 0);
        assert(b.contains(x));
        let j = choose|j: int| 0 <= j < b.len() && b[j] == x;
        assert(b.remove(j).to_multiset() =~= b.to_multiset().remove(x));
        assert(rest.to_multiset() =~= b.remove(j).to_multiset());
        lemma_channel_sum_permutation(rest, b.remove(j), k);
        lemma_channel_sum_remove(b, j, k);
    }
}

proof fn lemma_average_bound(total: int, n: int)
    requires
        n > 0,
        0 <= total <= 255 * n,
    ensures
        0 <= total / n <= 255,
{
    assert(0 <= total / n <= 255) by (nonlinear_arith)
        requires
            n > 0,
            0 <= total <= 255 * n,
    ;
}

} // verus!
