//! Toasts: where the stack sits, in which order it is drawn, and how
//! transient toasts leave the queue.
//!
//! Applications keep a queue of toasts in chronological order (oldest at
//! index 0, newest at the back). Time is counted in milliseconds on the
//! application's own monotonic clock.

use vstd::prelude::*;
use crate::direction::LayoutDirection;

verus! {

/// Where the toast stack is anchored. `Start` and `End` are logical and
/// mirror under right-to-left layouts.
#[derive(Debug, Clone, Copy, PartialEq, Eq, Structural)]
pub enum ToastPosition {
    TopStart,
    TopCenter,
    TopEnd,
    BottomStart,
    BottomCenter,
    BottomEnd,
}

impl ToastPosition {
    /// Whether the position is anchored to the top edge.
    pub open spec fn spec_is_top(self) -> bool {
        self is TopStart || self is TopCenter || self is TopEnd
    }

    /// Whether the position is anchored to the top edge.
    #[verifier::when_used_as_spec(spec_is_top)]
    pub fn is_top(self) -> (top: bool)
        ensures
            top == self.spec_is_top(),
    {
        match self {
            ToastPosition::TopStart | ToastPosition::TopCenter | ToastPosition::TopEnd => true,
            _ => false,
        }
    }
}

/// Physical horizontal alignment of a layer.
#[derive(Debug, Clone, Copy, PartialEq, Eq, Structural)]
pub enum Horizontal {
    Left,
    Center,
    Right,
}

/// Physical vertical alignment of a layer.
#[derive(Debug, Clone, Copy, PartialEq, Eq, Structural)]
pub enum Vertical {
    Top,
    Bottom,
}

/// The physical side a logical start lands on.
pub open spec fn start_side(direction: LayoutDirection) -> Horizontal {
    match direction {
        LayoutDirection::Ltr => Horizontal::Left,
        LayoutDirection::Rtl => Horizontal::Right,
    }
}

/// The physical side a logical end lands on.
pub open spec fn end_side(direction: LayoutDirection) -> Horizontal {
    match direction {
        LayoutDirection::Ltr => Horizontal::Right,
        LayoutDirection::Rtl => Horizontal::Left,
    }
}

/// The horizontal anchor of a toast position: `Start`/`End` resolve
/// through the reading direction, `Center` is unaffected by it.
pub open spec fn spec_horizontal_align(position: ToastPosition, direction: LayoutDirection) -> Horizontal {
    match position {
        ToastPosition::TopCenter | ToastPosition::BottomCenter => Horizontal::Center,
        ToastPosition::TopStart | ToastPosition::BottomStart => start_side(direction),
        ToastPosition::TopEnd | ToastPosition::BottomEnd => end_side(direction),
    }
}

/// Resolves the horizontal anchor of a toast position under a reading
/// direction.
pub fn horizontal_align(position: ToastPosition, direction: LayoutDirection) -> (h: Horizontal)
    ensures
        h == spec_horizontal_align(position, direction),
{
    match position {
        ToastPosition::TopCenter | ToastPosition::BottomCenter => Horizontal::Center,
        ToastPosition::TopStart | ToastPosition::BottomStart => match direction {
            LayoutDirection::Ltr => Horizontal::Left,
            LayoutDirection::Rtl => Horizontal::Right,
        },
        ToastPosition::TopEnd | ToastPosition::BottomEnd => match direction {
            LayoutDirection::Ltr => Horizontal::Right,
            LayoutDirection::Rtl => Horizontal::Left,
        },
    }
}

/// The vertical anchor of a toast position.
pub fn vertical_align(position: ToastPosition) -> (v: Vertical)
    ensures
        v == (if position.spec_is_top() { Vertical::Top } else { Vertical::Bottom }),
{
    if position.is_top() {
        Vertical::Top
    } else {
        Vertical::Bottom
    }
}

/// The mirror image of a horizontal alignment.
pub open spec fn mirrored(h: Horizontal) -> Horizontal {
    match h {
        Horizontal::Left => Horizontal::Right,
        Horizontal::Center => Horizontal::Center,
        Horizontal::Right => Horizontal::Left,
    }
}

/// Switching the reading direction mirrors every toast anchor: start and
/// end swap sides, centre stays where it is.
pub proof fn rtl_mirrors_toast_anchor(position: ToastPosition)
    ensures
        spec_horizontal_align(position, LayoutDirection::Rtl) == mirrored(
            spec_horizontal_align(position, LayoutDirection::Ltr),
        ),
        (position is TopCenter || position is BottomCenter) ==> spec_horizontal_align(
            position,
            LayoutDirection::Rtl,
        ) == Horizontal::Center && spec_horizontal_align(position, LayoutDirection::Ltr)
            == Horizontal::Center,
{
}

/// The order in which queued toasts are pushed into the top-down stack.
#[derive(Debug, Clone, Copy, PartialEq, Eq, Structural)]
pub enum ToastRenderOrder {
    /// Oldest first, newest last: the newest ends up at the bottom.
    Chronological,
    /// Newest first, oldest last: the newest ends up at the top.
    ReverseChronological,
}

/// The push order that places the newest toast closest to the anchor
/// edge: newest first for top anchors, newest last for bottom anchors.
pub fn render_order_for(position: ToastPosition) -> (order: ToastRenderOrder)
    ensures
        order == (if position.spec_is_top() {
            ToastRenderOrder::ReverseChronological
        } else {
            ToastRenderOrder::Chronological
        }),
{
    if position.is_top() {
        ToastRenderOrder::ReverseChronological
    } else {
        ToastRenderOrder::Chronological
    }
}

/// The toasts of a chronological queue in the order they are stacked,
/// top to bottom.
pub open spec fn spec_stack_order<T>(queue: Seq<T>, position: ToastPosition) -> Seq<T> {
    if position.spec_is_top() {
        queue.reverse()
    } else {
        queue
    }
}

/// Arranges a chronological queue (oldest first) top to bottom for the
/// stack at `position`.
pub fn stack_order<T>(queue: Vec<T>, position: ToastPosition) -> (stack: Vec<T>)
    ensures
        stack@ == spec_stack_order(queue@, position),
{
    match render_order_for(position) {
        ToastRenderOrder::ReverseChronological => crate::direction::in_physical_order(
            LayoutDirection::Rtl,
            queue,
        ),
        ToastRenderOrder::Chronological => queue,
    }
}

/// The newest toast is always the one closest to the anchor edge: the
/// first of the stack for top anchors, the last for bottom anchors, and
/// the stack holds the same toasts as the queue.
pub proof fn newest_toast_is_closest_to_anchor<T>(queue: Seq<T>, position: ToastPosition)
    requires
        queue.len() > 0,
    ensures
        spec_stack_order(queue, position).len() == queue.len(),
        position.spec_is_top() ==> spec_stack_order(queue, position)[0] == queue.last(),
        !position.spec_is_top() ==> spec_stack_order(queue, position).last() == queue.last(),
        spec_stack_order(queue, position).to_multiset() == queue.to_multiset(),
{
    if position.spec_is_top() {
        broadcast use vstd::seq_lib::group_seq_properties;
        queue.lemma_reverse_to_multiset();
    }
}

/// How long a toast stays in the queue.
#[derive(Debug, Clone, Copy, PartialEq, Eq, Structural)]
pub enum ToastLifetime {
    /// Dropped by the sweep once this many milliseconds have passed since
    /// the toast was created.
    Transient(u64),
    /// Never dropped by the sweep; the application dismisses it.
    Persistent,
}

/// The lifetime a toast has unless the application sets one.
pub const DEFAULT_LIFETIME_MS: u64 = 4000;

/// Interval between sweep ticks while a transient toast is queued.
pub const SWEEP_INTERVAL_MS: u64 = 500;

impl ToastLifetime {
    /// A transient lifetime of `seconds` seconds. A lifetime longer than
    /// the clock can count is capped at the clock's last millisecond.
    pub fn seconds(seconds: u64) -> (lifetime: ToastLifetime)
        ensures
            lifetime == ToastLifetime::Transient(
                if seconds * 1000 <= u64::MAX { (seconds * 1000) as u64 } else { u64::MAX },
            ),
    {
        if seconds <= u64::MAX / 1000 {
            ToastLifetime::Transient(seconds * 1000)
        } else {
            ToastLifetime::Transient(u64::MAX)
        }
    }

    /// A transient lifetime of `millis` milliseconds.
    pub fn millis(millis: u64) -> (lifetime: ToastLifetime)
        ensures
            lifetime == ToastLifetime::Transient(millis),
    {
        ToastLifetime::Transient(millis)
    }
}

/// The urgency of a toast; decides its colours.
#[derive(Debug, Clone, Copy, PartialEq, Eq, Structural)]
pub enum ToastIntent {
    Debug,
    Info,
    Success,
    Warning,
    Error,
}

/// A short-lived notification.
pub struct Toast<Message> {
    /// Application-supplied id; also derives the toast's identifier.
    pub id: u64,
    /// Decides the toast's colours.
    pub intent: ToastIntent,
    /// First line, in larger type.
    pub title: String,
    /// Body text.
    pub message: String,
    /// Emitted when the dismiss mark is pressed.
    pub on_dismiss: Message,
    /// How long the toast stays queued.
    pub lifetime: ToastLifetime,
    /// Creation time, in milliseconds on the application's clock. `None`
    /// until the toast is stamped: by `with_created_at`, or else by the
    /// first sweep that sees it, so its lifetime counts from then.
    pub created_at: Option<u64>,
}

/// Milliseconds elapsed from `from` to `to`; zero when `to` is earlier.
pub open spec fn elapsed(from: u64, to: u64) -> nat {
    if to >= from {
        (to - from) as nat
    } else {
        0
    }
}

/// Milliseconds a toast stamped at `created_at` has lived at `now`; an
/// unstamped toast is taken to be created at `now`.
pub open spec fn age(created_at: Option<u64>, now: u64) -> nat {
    match created_at {
        Some(at) => elapsed(at, now),
        None => 0,
    }
}

/// Whether a toast created at `created_at` with `lifetime` has expired
/// at `now`: transient toasts expire once their lifetime has elapsed,
/// persistent toasts never do.
pub open spec fn spec_expired(lifetime: ToastLifetime, created_at: Option<u64>, now: u64) -> bool {
    match lifetime {
        ToastLifetime::Transient(ms) => age(created_at, now) >= ms,
        ToastLifetime::Persistent => false,
    }
}

impl<Message> Toast<Message> {
    /// Whether this toast has expired at `now`.
    pub open spec fn expired_at(&self, now: u64) -> bool {
        spec_expired(self.lifetime, self.created_at, now)
    }

    /// This toast, stamped with `now` if it has no creation time yet.
    pub open spec fn stamped_at(self, now: u64) -> Self {
        match self.created_at {
            Some(_) => self,
            None => Toast { created_at: Some(now), ..self },
        }
    }

    /// A toast with the default transient lifetime, not yet stamped with
    /// its creation time.
    pub fn new(
        id: u64,
        intent: ToastIntent,
        title: &str,
        message: &str,
        on_dismiss: Message,
    ) -> (toast: Self)
        ensures
            toast.id == id,
            toast.intent == intent,
            toast.title@ == title@,
            toast.message@ == message@,
            toast.on_dismiss == on_dismiss,
            toast.lifetime == ToastLifetime::Transient(DEFAULT_LIFETIME_MS),
            toast.created_at is None,
    {
        Toast {
            id,
            intent,
            title: String::from_str(title),
            message: String::from_str(message),
            on_dismiss,
            lifetime: ToastLifetime::Transient(DEFAULT_LIFETIME_MS),
            created_at: None,
        }
    }

    /// The same toast with another lifetime.
    pub fn with_lifetime(self, lifetime: ToastLifetime) -> (toast: Self)
        ensures
            toast == (Toast { lifetime, ..self }),
    {
        Toast { lifetime, ..self }
    }

    /// The same toast created at another time.
    pub fn with_created_at(self, created_at: u64) -> (toast: Self)
        ensures
            toast == (Toast { created_at: Some(created_at), ..self }),
    {
        Toast { created_at: Some(created_at), ..self }
    }

    /// The same toast, never dropped by the sweep.
    pub fn persistent(self) -> (toast: Self)
        ensures
            toast == (Toast { lifetime: ToastLifetime::Persistent, ..self }),
    {
        Toast { lifetime: ToastLifetime::Persistent, ..self }
    }

    /// Whether this toast has expired at `now`.
    pub fn is_expired(&self, now: u64) -> (expired: bool)
        ensures
            expired == self.expired_at(now),
    {
        match self.lifetime {
            ToastLifetime::Transient(ms) => {
                let elapsed = match self.created_at {
                    Some(at) => if now >= at {
                        now - at
                    } else {
                        0
                    },
                    None => 0,
                };
                elapsed >= ms
            },
            ToastLifetime::Persistent => false,
        }
    }

    /// This toast, stamped with `now` if it has no creation time yet.
    fn stamp(self, now: u64) -> (toast: Self)
        ensures
            toast == self.stamped_at(now),
    {
        match self.created_at {
            Some(_) => self,
            None => Toast { created_at: Some(now), ..self },
        }
    }
}

/// Stamps a toast with `now` if it has no creation time yet.
pub open spec fn stamp_at<Message>(now: u64) -> spec_fn(Toast<Message>) -> Toast<Message> {
    |t: Toast<Message>| t.stamped_at(now)
}

/// Whether a toast stays in the queue at `now`.
pub open spec fn kept_at<Message>(now: u64) -> spec_fn(Toast<Message>) -> bool {
    |t: Toast<Message>| !t.expired_at(now)
}

/// The queue after a sweep at `now`: every toast stamped, then the
/// expired ones dropped, the others in their order.
pub open spec fn swept<Message>(queue: Seq<Toast<Message>>, now: u64) -> Seq<Toast<Message>> {
    queue.map_values(stamp_at(now)).filter(kept_at(now))
}

/// Drops the toasts that have expired at `now`, keeping every other toast
/// in its place in the queue; a toast without a creation time is stamped
/// with `now`.
pub fn sweep_expired<Message>(toasts: &mut Vec<Toast<Message>>, now: u64)
    ensures
        final(toasts)@ == swept(old(toasts)@, now),
{
    let ghost initial = toasts@;
    let ghost st = stamp_at::<Message>(now);
    let ghost keep = kept_at::<Message>(now);
    let mut i: usize = 0;
    let ghost mut k: int = 0;
    while i < toasts.len()
        invariant
            0 <= k <= initial.len(),
            i <= toasts@.len(),
            st == stamp_at::<Message>(now),
            keep == kept_at::<Message>(now),
            toasts@.take(i as int) == initial.take(k).map_values(st).filter(keep),
            toasts@.skip(i as int) == initial.skip(k),
        decreases initial.len() - k,
    {
        let ghost before = toasts@;
        proof {
            assert(before.skip(i as int).len() > 0);
            assert(k < initial.len());
            assert(before[i as int] == initial[k]) by {
                assert(before.skip(i as int)[0] == initial.skip(k)[0]);
            }
            assert(initial.take(k + 1).map_values(st) =~= initial.take(k).map_values(st).push(
                st(initial[k]),
            ));
            assert(before.skip(i as int + 1) =~= before.skip(i as int).skip(1));
            assert(initial.skip(k + 1) =~= initial.skip(k).skip(1));
            initial.take(k).map_values(st).lemma_filter_push(st(initial[k]), keep);
        }
        let toast = toasts.remove(i).stamp(now);
        if toast.is_expired(now) {
            proof {
                assert(toasts@.take(i as int) =~= before.take(i as int));
                assert(toasts@.skip(i as int) =~= before.skip(i as int + 1));
            }
        } else {
            toasts.insert(i, toast);
            proof {
                assert(toasts@.take(i + 1) =~= before.take(i as int).push(st(initial[k])));
                assert(toasts@.skip(i + 1) =~= before.skip(i as int + 1));
            }
            i = i + 1;
        }
        proof {
            k = k + 1;
        }
    }
    proof {
        assert(initial.skip(k).len() == 0);
        assert(k == initial.len());
        assert(initial.take(k) =~= initial);
        assert(toasts@.take(i as int) =~= toasts@);
    }
}

/// Whether the queue holds a transient toast, the only kind a sweep can
/// drop.
pub open spec fn spec_has_transient<Message>(toasts: Seq<Toast<Message>>) -> bool {
    exists|i: int| 0 <= i < toasts.len() && toasts[i].lifetime is Transient
}

/// Whether sweep ticks are needed: only while a transient toast is
/// queued. An empty or all-persistent queue needs no wake-ups.
pub fn needs_sweep_ticks<Message>(toasts: &[Toast<Message>]) -> (needed: bool)
    ensures
        needed == spec_has_transient(toasts@),
{
    let mut i: usize = 0;
    while i < toasts.len()
        invariant
            i <= toasts@.len(),
            forall|j: int| 0 <= j < i ==> !(toasts@[j].lifetime is Transient),
        decreases toasts@.len() - i,
    {
        if let ToastLifetime::Transient(_) = toasts[i].lifetime {
            return true;
        }
        i = i + 1;
    }
    false
}

/// Sweep ticks are needed exactly while some queued toast, wherever it
/// stands, is transient: one transient toast anywhere is enough, queuing
/// a persistent toast changes nothing, and joining two queues needs
/// ticks when either does.
pub proof fn ticks_follow_any_transient<Message>(
    queue: Seq<Toast<Message>>,
    other: Seq<Toast<Message>>,
    toast: Toast<Message>,
    i: int,
)
    ensures
        0 <= i < queue.len() && queue[i].lifetime is Transient ==> spec_has_transient(queue),
        toast.lifetime is Persistent ==> spec_has_transient(queue.push(toast)) == spec_has_transient(queue),
        toast.lifetime is Transient ==> spec_has_transient(queue.push(toast)),
        spec_has_transient(queue + other) == (spec_has_transient(queue) || spec_has_transient(other)),
        !spec_has_transient(Seq::<Toast<Message>>::empty()),
{
    if 0 <= i < queue.len() && queue[i].lifetime is Transient {
        assert(queue[i].lifetime is Transient);
    }
    let pushed = queue.push(toast);
    if toast.lifetime is Transient {
        assert(pushed[queue.len() as int] == toast);
    }
    if spec_has_transient(pushed) {
        let j = choose|j: int| 0 <= j < pushed.len() && pushed[j].lifetime is Transient;
        if j < queue.len() {
            assert(queue[j] == pushed[j]);
        }
    }
    if spec_has_transient(queue) {
        let j = choose|j: int| 0 <= j < queue.len() && queue[j].lifetime is Transient;
        assert(pushed[j] == queue[j]);
    }
    let joined = queue + other;
    if spec_has_transient(joined) {
        let j = choose|j: int| 0 <= j < joined.len() && joined[j].lifetime is Transient;
        if j < queue.len() {
            assert(queue[j] == joined[j]);
        } else {
            assert(other[j - queue.len()] == joined[j]);
        }
    }
    if spec_has_transient(queue) {
        let j = choose|j: int| 0 <= j < queue.len() && queue[j].lifetime is Transient;
        assert(joined[j] == queue[j]);
    }
    if spec_has_transient(other) {
        let j = choose|j: int| 0 <= j < other.len() && other[j].lifetime is Transient;
        assert(joined[j + queue.len()] == other[j]);
    }
}

/// While no ticks are needed a sweep drops nothing, so stopping the ticks
/// loses no expiry.
pub proof fn without_transients_sweep_drops_nothing<Message>(queue: Seq<Toast<Message>>, now: u64)
    requires
        !spec_has_transient(queue),
    ensures
        swept(queue, now).len() == queue.len(),
    decreases queue.len(),
{
    let st = stamp_at::<Message>(now);
    let p = kept_at::<Message>(now);
    reveal(Seq::filter);
    if queue.len() > 0 {
        let init = queue.drop_last();
        assert(!spec_has_transient(init)) by {
            if spec_has_transient(init) {
                let j = choose|j: int| 0 <= j < init.len() && init[j].lifetime is Transient;
                assert(queue[j] == init[j]);
            }
        }
        without_transients_sweep_drops_nothing(init, now);
        assert(init.map_values(st) =~= queue.map_values(st).drop_last());
        assert(!(queue.last().lifetime is Transient));
        assert(p(st(queue.last())));
    }
}

/// Persistent toasts survive every sweep.
pub proof fn sweep_keeps_persistent<Message>(queue: Seq<Toast<Message>>, now: u64, i: int)
    requires
        0 <= i < queue.len(),
        queue[i].lifetime is Persistent,
    ensures
        swept(queue, now).contains(queue[i].stamped_at(now)),
{
    broadcast use vstd::seq_lib::group_filter_ensures;
    let m = queue.map_values(stamp_at::<Message>(now));
    assert(m[i] == queue[i].stamped_at(now));
    assert(kept_at::<Message>(now)(m[i]));
}

/// Filtering a queue down to the toasts kept at `now` a second time drops
/// nothing more, and leaves no expired toast.
proof fn kept_filter_is_idempotent<Message>(queue: Seq<Toast<Message>>, now: u64)
    ensures
        forall|i: int|
            0 <= i < queue.filter(kept_at(now)).len() ==> !(#[trigger] queue.filter(
                kept_at(now),
            )[i]).expired_at(now),
        queue.filter(kept_at(now)).filter(kept_at(now)) == queue.filter(kept_at(now)),
    decreases queue.len(),
{
    broadcast use vstd::seq_lib::group_filter_ensures;
    let p = kept_at::<Message>(now);
    reveal(Seq::filter);
    if queue.len() > 0 {
        kept_filter_is_idempotent(queue.drop_last(), now);
        if p(queue.last()) {
            queue.drop_last().filter(p).lemma_filter_push(queue.last(), p);
        }
    }
    assert forall|i: int| 0 <= i < queue.filter(p).len() implies !(#[trigger] queue.filter(
        p,
    )[i]).expired_at(now) by {
        queue.lemma_filter_pred(p, i);
    }
}

/// Every toast a sweep leaves is stamped.
proof fn swept_toasts_are_stamped<Message>(queue: Seq<Toast<Message>>, now: u64)
    ensures
        forall|i: int| 0 <= i < swept(queue, now).len() ==> (#[trigger] swept(queue, now)[i]).created_at is Some,
    decreases queue.len(),
{
    let st = stamp_at::<Message>(now);
    let p = kept_at::<Message>(now);
    let m = queue.map_values(st);
    reveal(Seq::filter);
    if queue.len() > 0 {
        swept_toasts_are_stamped(queue.drop_last(), now);
        assert(queue.drop_last().map_values(st) =~= m.drop_last());
    }
}

/// What a sweep leaves has not expired and is stamped, and sweeping again
/// at the same instant changes nothing.
pub proof fn sweep_is_idempotent<Message>(queue: Seq<Toast<Message>>, now: u64)
    ensures
        forall|i: int| 0 <= i < swept(queue, now).len() ==> !(#[trigger] swept(queue, now)[i]).expired_at(now),
        swept(swept(queue, now), now) == swept(queue, now),
{
    let st = stamp_at::<Message>(now);
    let m = queue.map_values(st);
    let r = swept(queue, now);
    kept_filter_is_idempotent(m, now);
    swept_toasts_are_stamped(queue, now);
    assert(r.map_values(st) =~= r);
}

/// Expiry is permanent: a toast expired at some instant is expired at
/// every later one, so a sweep at a later time drops everything an
/// earlier sweep would have dropped.
pub proof fn expiry_is_permanent(lifetime: ToastLifetime, created_at: Option<u64>, earlier: u64, later: u64)
    requires
        earlier <= later,
        spec_expired(lifetime, created_at, earlier),
    ensures
        spec_expired(lifetime, created_at, later),
{
}

} // verus!
