use vstd::prelude::*;

verus! {

/// Whether two strings hold the same text.
fn same_text(a: &str, b: &str) -> (same: bool)
    ensures
        same == (a@ == b@),
{
    let x = a.as_bytes();
    let y = b.as_bytes();
    proof {
        // Two texts with the same bytes decode to the same characters.
        vstd::utf8::encode_utf8_decode_utf8(a@);
        vstd::utf8::encode_utf8_decode_utf8(b@);
    }
    if x.len() != y.len() {
        return false;
    }
    let mut i: usize = 0;
    while i < x.len()
        invariant
            i <= x.len(),
            x.len() == y.len(),
            x@ == vstd::utf8::encode_utf8(a@),
            y@ == vstd::utf8::encode_utf8(b@),
            forall|j: int| 0 <= j < i ==> x@[j] == y@[j],
        decreases x.len() - i,
    {
        if x[i] != y[i] {
            return false;
        }
        i += 1;
    }
    assert(x@ =~= y@);
    true
}

/// What a [`DegradationReason`] says: its code and its message, as text.
pub struct ReasonView {
    pub code: Seq<char>,
    pub message: Seq<char>,
}

/// A structured reason explaining why the service is not ready.
///
/// A reason is identified by its code: two reasons with the same code are
/// the same reason, whatever their messages say, and `==` compares codes.
#[derive(Debug, Clone, Copy, Eq)]
pub struct DegradationReason {
    /// Stable, machine-readable.
    pub code: &'static str,
    /// For people.
    pub message: &'static str,
}

impl View for DegradationReason {
    type V = ReasonView;

    open spec fn view(&self) -> ReasonView {
        ReasonView { code: self.code@, message: self.message@ }
    }
}

impl PartialEq for DegradationReason {
    fn eq(&self, other: &Self) -> (equal: bool) {
        same_text(self.code, other.code)
    }
}

impl vstd::std_specs::cmp::PartialEqSpecImpl for DegradationReason {
    open spec fn obeys_eq_spec() -> bool {
        true
    }

    open spec fn eq_spec(&self, other: &Self) -> bool {
        self.code@ == other.code@
    }
}

impl DegradationReason {
    /// A reason with the given code and message.
    pub fn new(code: &'static str, message: &'static str) -> (reason: Self)
        ensures
            reason.code == code,
            reason.message == message,
    {
        DegradationReason { code, message }
    }

    /// What [`starting`](Self::starting) says.
    pub open spec fn starting_view() -> ReasonView {
        ReasonView { code: "starting"@, message: "service is starting"@ }
    }

    /// What [`shutting_down`](Self::shutting_down) says.
    pub open spec fn shutting_down_view() -> ReasonView {
        ReasonView { code: "shutting_down"@, message: "service is shutting down"@ }
    }

    /// The reason that every service starts with: it has not finished
    /// starting.
    pub fn starting() -> (reason: Self)
        ensures
            reason@ == Self::starting_view(),
    {
        DegradationReason::new("starting", "service is starting")
    }

    /// The reason that a service carries from the moment its shutdown
    /// begins.
    pub fn shutting_down() -> (reason: Self)
        ensures
            reason@ == Self::shutting_down_view(),
    {
        DegradationReason::new("shutting_down", "service is shutting down")
    }
}

/// What each of the given reasons says, in the same order.
pub open spec fn reason_views(reasons: Seq<DegradationReason>) -> Seq<ReasonView> {
    reasons.map_values(|reason: DegradationReason| reason@)
}

/// What a [`HealthState`] is, as far as its contracts are concerned: the
/// liveness flag, and the reasons for which the service is not ready, as a
/// map from each reason's code to its message.
pub struct HealthView {
    pub live: bool,
    pub reasons: Map<Seq<char>, Seq<char>>,
}

impl HealthView {
    /// Readiness is not a flag of its own: a service is ready when nothing
    /// degrades it.
    pub open spec fn ready(self) -> bool {
        self.reasons.dom().is_empty()
    }

    /// The reasons, as the set of what they say.
    pub open spec fn entries(self) -> Set<ReasonView> {
        Set::new(|reason: ReasonView| self.reasons.contains_pair(reason.code, reason.message))
    }

    /// What adding a reason leaves behind: a reason whose code is already
    /// there changes nothing, not even the message on record.
    pub open spec fn after_add(self, reason: ReasonView) -> HealthView {
        if self.reasons.dom().contains(reason.code) {
            self
        } else {
            HealthView { live: self.live, reasons: self.reasons.insert(reason.code, reason.message) }
        }
    }

    /// What removing a reason leaves behind: the reason with that code is
    /// gone, if there was one.
    pub open spec fn after_remove(self, reason: ReasonView) -> HealthView {
        HealthView { live: self.live, reasons: self.reasons.remove(reason.code) }
    }

    /// What clearing the reasons leaves behind.
    pub open spec fn after_clear(self) -> HealthView {
        HealthView { live: self.live, reasons: Map::empty() }
    }
}

/// Whether no two entries of the list have the same code.
spec fn codes_differ(reasons: Seq<DegradationReason>) -> bool {
    forall|i: int, j: int|
        0 <= i < reasons.len() && 0 <= j < reasons.len() && i != j ==> (#[trigger] reasons[i]).code@
            != (#[trigger] reasons[j]).code@
}

/// Whether some entry of the list has the given code.
spec fn lists_code(reasons: Seq<DegradationReason>, code: Seq<char>) -> bool {
    exists|i: int| 0 <= i < reasons.len() && (#[trigger] reasons[i]).code@ == code
}

/// The place of an entry with the given code.
spec fn place_of(reasons: Seq<DegradationReason>, code: Seq<char>) -> int {
    choose|i: int| 0 <= i < reasons.len() && (#[trigger] reasons[i]).code@ == code
}

/// The list as a map from code to message.
spec fn by_code(reasons: Seq<DegradationReason>) -> Map<Seq<char>, Seq<char>> {
    Map::new(
        |code: Seq<char>| lists_code(reasons, code),
        |code: Seq<char>| reasons[place_of(reasons, code)].message@,
    )
}

/// In a list without repeated codes, the map holds each entry as it stands
/// in the list.
proof fn lemma_entry(reasons: Seq<DegradationReason>, i: int)
    requires
        codes_differ(reasons),
        0 <= i < reasons.len(),
    ensures
        by_code(reasons).dom().contains(reasons[i].code@),
        by_code(reasons)[reasons[i].code@] == reasons[i].message@,
        place_of(reasons, reasons[i].code@) == i,
{
}

/// A new entry with a code of its own adds one pair to the map.
proof fn lemma_push_entry(reasons: Seq<DegradationReason>, reason: DegradationReason)
    requires
        codes_differ(reasons),
        !lists_code(reasons, reason.code@),
    ensures
        codes_differ(reasons.push(reason)),
        by_code(reasons.push(reason)) == by_code(reasons).insert(reason.code@, reason.message@),
{
    let after = reasons.push(reason);
    let wanted = by_code(reasons).insert(reason.code@, reason.message@);
    assert(codes_differ(after));
    assert forall|code: Seq<char>| by_code(after).dom().contains(code) <==> wanted.dom().contains(
        code,
    ) by {
        if lists_code(reasons, code) {
            assert(after[place_of(reasons, code)].code@ == code);
        }
        if code == reason.code@ {
            assert(after[reasons.len() as int].code@ == code);
        }
    }
    assert forall|code: Seq<char>| by_code(after).dom().contains(code) implies by_code(after)[code]
        == wanted[code] by {
        let k = place_of(after, code);
        lemma_entry(after, k);
        if k < reasons.len() {
            lemma_entry(reasons, k);
        }
    }
}

/// Taking one entry out of a list without repeated codes takes its code out
/// of the map.
proof fn lemma_remove_entry(reasons: Seq<DegradationReason>, i: int)
    requires
        codes_differ(reasons),
        0 <= i < reasons.len(),
    ensures
        codes_differ(reasons.remove(i)),
        by_code(reasons.remove(i)) == by_code(reasons).remove(reasons[i].code@),
{
    let after = reasons.remove(i);
    let wanted = by_code(reasons).remove(reasons[i].code@);
    assert(codes_differ(after));
    assert forall|code: Seq<char>| by_code(after).dom().contains(code) <==> wanted.dom().contains(
        code,
    ) by {
        if lists_code(reasons, code) && code != reasons[i].code@ {
            let k = place_of(reasons, code);
            let moved = if k < i {
                k
            } else {
                k - 1
            };
            assert(after[moved].code@ == code);
        }
    }
    assert forall|code: Seq<char>| by_code(after).dom().contains(code) implies by_code(after)[code]
        == wanted[code] by {
        let k = place_of(after, code);
        lemma_entry(after, k);
        lemma_entry(reasons, if k < i { k } else { k + 1 });
    }
}

/// A list without repeated codes lists exactly the pairs of its map, each
/// once, so the map has as many codes as the list has entries.
proof fn lemma_listing(reasons: Seq<DegradationReason>)
    requires
        codes_differ(reasons),
    ensures
        reason_views(reasons).no_duplicates(),
        reason_views(reasons).to_set() == (HealthView { live: true, reasons: by_code(reasons) }).entries(),
        by_code(reasons).dom().finite(),
        by_code(reasons).dom().len() == reasons.len(),
    decreases reasons.len(),
{
    let views = reason_views(reasons);
    let entries = (HealthView { live: true, reasons: by_code(reasons) }).entries();
    assert(views.no_duplicates());
    assert forall|view: ReasonView| views.to_set().contains(view) <==> entries.contains(view) by {
        if views.contains(view) {
            let k = choose|k: int| 0 <= k < views.len() && views[k] == view;
            lemma_entry(reasons, k);
        }
        if entries.contains(view) {
            let k = place_of(reasons, view.code);
            lemma_entry(reasons, k);
            assert(views[k] == view);
        }
    }
    if reasons.len() == 0 {
        assert(by_code(reasons).dom() =~= Set::empty());
    } else {
        let last = reasons.len() - 1;
        lemma_remove_entry(reasons, last);
        lemma_listing(reasons.remove(last));
        lemma_entry(reasons, last);
        // One code more than the list without its last entry has.
        assert(by_code(reasons).dom() =~= by_code(reasons.remove(last)).dom().insert(
            reasons[last].code@,
        ));
    }
}

/// Represents service health state.
///
/// - Liveness: is the process alive?
/// - Readiness: derived from degradation reasons
pub struct HealthState {
    live: bool,
    /// The degradation reasons, no two with the same code.
    reasons: Vec<DegradationReason>,
}

impl View for HealthState {
    type V = HealthView;

    closed spec fn view(&self) -> HealthView {
        HealthView { live: self.live, reasons: by_code(self.reasons@) }
    }
}

impl HealthState {
    #[verifier::type_invariant]
    spec fn no_code_twice(self) -> bool {
        codes_differ(self.reasons@)
    }

    /// Create a new health state.
    ///
    /// Services start as:
    /// - live = true
    /// - ready = false: the one reason is [`DegradationReason::starting`]
    pub fn new() -> (health: Self)
        ensures
            health@.live,
            health@.reasons == map![
                DegradationReason::starting_view().code => DegradationReason::starting_view().message
            ],
            !health@.ready(),
    {
        let mut reasons: Vec<DegradationReason> = Vec::new();
        let starting = DegradationReason::starting();
        proof {
            lemma_push_entry(reasons@, starting);
        }
        reasons.push(starting);
        HealthState { live: true, reasons }
    }

    /// Mark service as alive.
    pub fn mark_alive(&mut self)
        ensures
            final(self)@.live,
            final(self)@.reasons == old(self)@.reasons,
    {
        proof {
            use_type_invariant(&*self);
        }
        self.live = true;
    }

    /// Mark service as not live.
    ///
    /// Typically used during shutdown.
    pub fn mark_dead(&mut self)
        ensures
            !final(self)@.live,
            final(self)@.reasons == old(self)@.reasons,
    {
        proof {
            use_type_invariant(&*self);
        }
        self.live = false;
    }

    /// Is the service alive?
    pub fn is_live(&self) -> (live: bool)
        ensures
            live == self@.live,
    {
        self.live
    }

    /// Is the service ready?
    ///
    /// Readiness is derived from the absence of degradation reasons.
    pub fn is_ready(&self) -> (ready: bool)
        ensures
            ready == self@.ready(),
            ready == self@.reasons.dom().is_empty(),
    {
        let empty = self.reasons.is_empty();
        proof {
            use_type_invariant(self);
            if self.reasons@.len() > 0 {
                lemma_entry(self.reasons@, 0);
            }
        }
        empty
    }

    /// Where in the list the reason with the given code stands, if there is
    /// one.
    fn position(&self, code: &str) -> (found: Option<usize>)
        ensures
            match found {
                Some(i) => i < self.reasons@.len() && self.reasons@[i as int].code@ == code@,
                None => !lists_code(self.reasons@, code@),
            },
    {
        let mut i: usize = 0;
        while i < self.reasons.len()
            invariant
                i <= self.reasons@.len(),
                forall|j: int| 0 <= j < i ==> (#[trigger] self.reasons@[j]).code@ != code@,
            decreases self.reasons@.len() - i,
        {
            if same_text(self.reasons[i].code, code) {
                return Some(i);
            }
            i += 1;
        }
        None
    }

    /// Hands out the list of reasons and leaves an empty one in its place.
    fn take_reasons(&mut self) -> (taken: Vec<DegradationReason>)
        ensures
            taken@ == old(self).reasons@,
            final(self).reasons@ == Seq::<DegradationReason>::empty(),
            final(self).live == old(self).live,
    {
        let mut taken: Vec<DegradationReason> = Vec::new();
        core::mem::swap(&mut self.reasons, &mut taken);
        taken
    }

    /// Add a readiness degradation reason. Nothing changes if a reason with
    /// the same code is already there.
    pub fn add_degradation(&mut self, reason: DegradationReason)
        ensures
            final(self)@ == old(self)@.after_add(reason@),
    {
        proof {
            use_type_invariant(&*self);
        }
        if self.position(reason.code).is_none() {
            let mut reasons = self.take_reasons();
            proof {
                lemma_push_entry(reasons@, reason);
            }
            reasons.push(reason);
            self.reasons = reasons;
        }
    }

    /// Remove a readiness degradation reason: the one with the same code.
    /// Nothing changes if there is none.
    pub fn remove_degradation(&mut self, reason: &DegradationReason)
        ensures
            final(self)@ == old(self)@.after_remove(reason@),
    {
        proof {
            use_type_invariant(&*self);
        }
        if let Some(i) = self.position(reason.code) {
            let mut reasons = self.take_reasons();
            proof {
                lemma_remove_entry(reasons@, i as int);
            }
            reasons.remove(i);
            self.reasons = reasons;
        } else {
            assert(self@.reasons.remove(reason.code@) =~= self@.reasons);
        }
    }

    /// Clear all readiness degradation reasons.
    pub fn clear_degradations(&mut self)
        ensures
            final(self)@ == old(self)@.after_clear(),
            final(self)@.ready(),
    {
        self.reasons = Vec::new();
        assert(self@.reasons =~= Map::empty());
    }

    /// Get a snapshot of current readiness degradation reasons, each once,
    /// in no order that a caller may rely on.
    pub fn degradation_reasons(&self) -> (reasons: Vec<DegradationReason>)
        ensures
            reason_views(reasons@).to_set() == self@.entries(),
            reason_views(reasons@).no_duplicates(),
            self@.reasons.dom().finite(),
            reasons@.len() == self@.reasons.dom().len(),
    {
        let mut snapshot: Vec<DegradationReason> = Vec::new();
        let mut i: usize = 0;
        while i < self.reasons.len()
            invariant
                i <= self.reasons@.len(),
                snapshot@ == self.reasons@.take(i as int),
            decreases self.reasons@.len() - i,
        {
            snapshot.push(self.reasons[i]);
            i += 1;
        }
        assert(snapshot@ =~= self.reasons@);
        proof {
            use_type_invariant(self);
            lemma_listing(self.reasons@);
        }
        snapshot
    }
}

} // verus!
