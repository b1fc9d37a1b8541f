use std::ops::RangeInclusive;

use vstd::prelude::*;
use vstd::std_specs::range::RangeInclusiveView;

use crate::message::MessageId;
use crate::node::NodeId;

verus! {

/// The identifier of a signal.
#[derive(Copy, Clone, Hash, PartialEq, Eq, Structural, Debug)]
pub struct SignalId {
    id: u64,
}

impl View for SignalId {
    type V = u64;

    closed spec fn view(&self) -> u64 {
        self.id
    }
}

impl SignalId {
    pub fn new(input: u64) -> (res: Self)
        ensures
            res@ == input,
    {
        Self { id: input }
    }
}

/// The signal identifier with the number `input`.
pub closed spec fn signal_id_of(input: u64) -> SignalId {
    SignalId { id: input }
}

impl From<u64> for SignalId {
    fn from(input: u64) -> (res: SignalId)
        ensures
            res@ == input,
    {
        SignalId::new(input)
    }
}

impl vstd::std_specs::convert::FromSpecImpl<u64> for SignalId {
    open spec fn obeys_from_spec() -> bool {
        true
    }

    open spec fn from_spec(v: u64) -> SignalId {
        signal_id_of(v)
    }
}


/// Where a signal lies in the payload of its message.
#[derive(Debug, Clone, Copy, PartialEq, Eq)]
pub struct SignalLayout {
    pub start_bit: u16,
    pub length: u16,
    pub byte_order: SignalLayoutEndianness,
    pub sign: SignalLayoutSign,
}

/// The byte order of a signal.
#[derive(Debug, Clone, Copy, PartialEq, Eq)]
pub enum SignalLayoutEndianness {
    LittleEndian,
    BigEndian,
}

/// Whether a signal's raw value is signed.
#[derive(Debug, Clone, Copy, PartialEq, Eq)]
pub enum SignalLayoutSign {
    Signed,
    Unsigned,
}

/// The views of a list of multiplexer ranges.
pub open spec fn range_views(ranges: Seq<RangeInclusive<u64>>) -> Seq<RangeInclusiveView<u64>> {
    ranges.map_values(|r: RangeInclusive<u64>| r@)
}

/// Two inclusive ranges are equal: `RangeInclusive` derives `PartialEq`, which
/// compares its start, its end and whether it has been exhausted, the three
/// parts of its view.
#[verifier::external_body]
fn ranges_equal(a: &RangeInclusive<u64>, b: &RangeInclusive<u64>) -> (res: bool)
    ensures
        res == (a@ == b@),
{
    a == b
}

/// `Clone` of `RangeInclusive`, which the derived `Clone` of multiplexer
/// references and signal commands calls. Nothing is claimed of the copy.
pub assume_specification<Idx: Clone>[ <RangeInclusive<Idx> as Clone>::clone ](
    r: &RangeInclusive<Idx>,
) -> RangeInclusive<Idx>;

/// What a multiplexer reference is: the multiplexing signal and the ranges
/// of its value for which the multiplexed signal is present.
pub struct MultiplexerView {
    pub id: SignalId,
    pub ranges: Seq<RangeInclusiveView<u64>>,
}

/// The multiplexer signal that selects when a signal is present.
#[derive(Clone, PartialEq, Eq, Debug)]
pub struct SignalMultiplexer {
    multiplexer_id: SignalId,
    ranges: Vec<RangeInclusive<u64>>,
}

impl View for SignalMultiplexer {
    type V = MultiplexerView;

    closed spec fn view(&self) -> MultiplexerView {
        MultiplexerView { id: self.multiplexer_id, ranges: range_views(self.ranges@) }
    }
}

impl SignalMultiplexer {
    /// A reference to the multiplexer signal `id`, with no ranges yet.
    pub fn new(id: SignalId) -> (res: Self)
        ensures
            res@.id == id,
            res@.ranges == Seq::<RangeInclusiveView<u64>>::empty(),
    {
        let res = SignalMultiplexer { multiplexer_id: id, ranges: Vec::new() };
        assert(res@.ranges =~= Seq::<RangeInclusiveView<u64>>::empty());
        res
    }

    pub fn get_id(&self) -> (res: SignalId)
        ensures
            res == self@.id,
    {
        self.multiplexer_id
    }

    pub fn get_ranges(&self) -> (res: &Vec<RangeInclusive<u64>>)
        ensures
            range_views(res@) == self@.ranges,
    {
        &self.ranges
    }

    pub(crate) fn get_ranges_mut(&mut self) -> (res: &mut Vec<RangeInclusive<u64>>)
        ensures
            range_views(res@) == old(self)@.ranges,
            final(self)@ == (MultiplexerView { id: old(self)@.id, ranges: range_views(final(res)@) }),
    {
        &mut self.ranges
    }
}

/// The index of the first receiver equal to `n`, if any.
fn position_of_receiver(receivers: &Vec<NodeId>, n: NodeId) -> (res: Option<usize>)
    ensures
        match res {
            Some(i) => i < receivers@.len() && receivers@.index_of_first(n) == Some(i as int),
            None => !receivers@.contains(n),
        },
{
    let mut i: usize = 0;
    while i < receivers.len()
        invariant
            i <= receivers@.len(),
            forall|j: int| 0 <= j < i ==> receivers@[j] != n,
        decreases receivers@.len() - i,
    {
        if receivers[i] == n {
            proof {
                receivers@.index_of_first_ensures(n);
            }
            assert(receivers@.contains(n));
            return Some(i);
        }
        i = i + 1;
    }
    None
}

/// The index of the first range equal to `r`, if any.
fn position_of_range(ranges: &Vec<RangeInclusive<u64>>, r: &RangeInclusive<u64>) -> (res: Option<
    usize,
>)
    ensures
        match res {
            Some(i) => i < ranges@.len() && range_views(ranges@).index_of_first(r@) == Some(
                i as int,
            ),
            None => !range_views(ranges@).contains(r@),
        },
{
    let ghost views = range_views(ranges@);
    let mut i: usize = 0;
    while i < ranges.len()
        invariant
            i <= ranges@.len(),
            views == range_views(ranges@),
            forall|j: int| 0 <= j < i ==> views[j] != r@,
        decreases ranges@.len() - i,
    {
        if ranges_equal(&ranges[i], r) {
            assert(views[i as int] == r@);
            proof {
                views.index_of_first_ensures(r@);
            }
            assert(views.contains(r@));
            return Some(i);
        }
        i = i + 1;
    }
    None
}

/// What a signal is: the values of its fields.
pub struct SignalView {
    pub name: Seq<char>,
    pub layout: SignalLayout,
    pub unit: Option<Seq<char>>,
    pub receivers: Seq<NodeId>,
    pub multiplexer: bool,
    pub multiplexed_by: Option<MultiplexerView>,
    pub message_id: MessageId,
}

/// The view of an optional unit.
pub open spec fn unit_view(unit: Option<String>) -> Option<Seq<char>> {
    match unit {
        Some(u) => Some(u@),
        None => None,
    }
}

/// The view of an optional multiplexer reference.
pub open spec fn multiplexer_view(m: Option<SignalMultiplexer>) -> Option<MultiplexerView> {
    match m {
        Some(m) => Some(m@),
        None => None,
    }
}

/// `s` with the receivers `receivers`.
pub open spec fn with_receivers(s: SignalView, receivers: Seq<NodeId>) -> SignalView {
    SignalView { receivers: receivers, ..s }
}

/// `s` with the multiplexer reference `m`.
pub open spec fn with_multiplexed_by(s: SignalView, m: Option<MultiplexerView>) -> SignalView {
    SignalView { multiplexed_by: m, ..s }
}

/// The outcome of applying `cmd` to `s`: the changed signal, or why it is refused.
pub open spec fn signal_after_command(s: SignalView, cmd: SignalCommand) -> Result<
    SignalView,
    SignalError,
> {
    match cmd {
        SignalCommand::Rename(new_name) => Ok(SignalView { name: new_name@, ..s }),
        SignalCommand::ChangeLayout(new_layout) => Ok(SignalView { layout: new_layout, ..s }),
        SignalCommand::ChangeUnit(new_unit) => Ok(SignalView { unit: unit_view(new_unit), ..s }),
        SignalCommand::AddReceiver(n) => {
            if s.receivers.contains(n) {
                Err(SignalError::ReceiverAlreadyPresent)
            } else {
                Ok(with_receivers(s, s.receivers.push(n)))
            }
        },
        SignalCommand::RemoveReceiver(n) => {
            match s.receivers.index_of_first(n) {
                Some(i) => Ok(with_receivers(s, s.receivers.remove(i))),
                None => Err(SignalError::ReceiverNotPresent),
            }
        },
        SignalCommand::SetAsMultiplexer => Ok(SignalView { multiplexer: true, ..s }),
        SignalCommand::RemoveAsMultiplexer => Ok(SignalView { multiplexer: false, ..s }),
        SignalCommand::AddMultiplexer(m) => {
            if s.multiplexed_by is None {
                Ok(with_multiplexed_by(s, Some(m@)))
            } else {
                Err(SignalError::MultiplexerAlreadyPresent)
            }
        },
        SignalCommand::RemoveMultiplexer(id) => {
            match s.multiplexed_by {
                Some(m) => {
                    if m.id == id {
                        Ok(with_multiplexed_by(s, None))
                    } else {
                        Err(SignalError::MultiplexerSignalNotPresent)
                    }
                },
                None => Err(SignalError::MultiplexerSignalNotPresent),
            }
        },
        SignalCommand::AddMultiplexerRange(r) => {
            match s.multiplexed_by {
                Some(m) => {
                    if m.ranges.contains(r@) {
                        Err(SignalError::MultiplexerSignalRangeAlreadyPresent)
                    } else {
                        Ok(
                            with_multiplexed_by(
                                s,
                                Some(MultiplexerView { id: m.id, ranges: m.ranges.push(r@) }),
                            ),
                        )
                    }
                },
                None => Err(SignalError::MultiplexerSignalNotPresent),
            }
        },
        SignalCommand::RemoveMultiplexerRange(r) => {
            match s.multiplexed_by {
                Some(m) => {
                    match m.ranges.index_of_first(r@) {
                        Some(i) => Ok(
                            with_multiplexed_by(
                                s,
                                Some(MultiplexerView { id: m.id, ranges: m.ranges.remove(i) }),
                            ),
                        ),
                        None => Err(SignalError::MultiplexerSignalRangeNotPresent),
                    }
                },
                None => Err(SignalError::MultiplexerSignalNotPresent),
            }
        },
    }
}

/// Adding a receiver that was not there and then removing it gives the signal back.
pub proof fn lemma_add_then_remove_receiver(s: SignalView, n: NodeId)
    requires
        !s.receivers.contains(n),
    ensures
        signal_after_command(s, SignalCommand::AddReceiver(n)) matches Ok(t)
            && signal_after_command(t, SignalCommand::RemoveReceiver(n)) == Ok::<
            SignalView,
            SignalError,
        >(s),
{
    let pushed = s.receivers.push(n);
    pushed.index_of_first_ensures(n);
    assert(pushed[s.receivers.len() as int] == n);
    assert(pushed.index_of_first(n) == Some(s.receivers.len() as int));
    assert(pushed.remove(s.receivers.len() as int) =~= s.receivers);
}

/// Adding a multiplexer range that was not there and then removing it gives
/// the signal back.
pub proof fn lemma_add_then_remove_range(s: SignalView, r: RangeInclusive<u64>)
    requires
        s.multiplexed_by matches Some(m) && !m.ranges.contains(r@),
    ensures
        signal_after_command(s, SignalCommand::AddMultiplexerRange(r)) matches Ok(t)
            && signal_after_command(t, SignalCommand::RemoveMultiplexerRange(r)) == Ok::<
            SignalView,
            SignalError,
        >(s),
{
    let m = s.multiplexed_by.unwrap();
    let pushed = m.ranges.push(r@);
    pushed.index_of_first_ensures(r@);
    assert(pushed[m.ranges.len() as int] == r@);
    assert(pushed.index_of_first(r@) == Some(m.ranges.len() as int));
    assert(pushed.remove(m.ranges.len() as int) =~= m.ranges);
}

/// Attaching a multiplexer to a signal that had none and then detaching it
/// by its identifier gives the signal back.
pub proof fn lemma_add_then_remove_multiplexer(s: SignalView, m: SignalMultiplexer)
    requires
        s.multiplexed_by is None,
    ensures
        signal_after_command(s, SignalCommand::AddMultiplexer(m)) matches Ok(t)
            && signal_after_command(t, SignalCommand::RemoveMultiplexer(m@.id)) == Ok::<
            SignalView,
            SignalError,
        >(s),
{
}

/// The commands that cannot be refused: renaming, changing the layout or the
/// unit, and setting or clearing the multiplexer flag succeed on every signal,
/// whatever multiplexing it has, and change only the field they name.
pub proof fn lemma_unrefused_commands(
    s: SignalView,
    name: String,
    layout: SignalLayout,
    unit: Option<String>,
)
    ensures
        signal_after_command(s, SignalCommand::Rename(name)) == Ok::<SignalView, SignalError>(
            SignalView { name: name@, ..s },
        ),
        signal_after_command(s, SignalCommand::ChangeLayout(layout)) == Ok::<
            SignalView,
            SignalError,
        >(SignalView { layout: layout, ..s }),
        signal_after_command(s, SignalCommand::ChangeUnit(unit)) == Ok::<SignalView, SignalError>(
            SignalView {
                unit: match unit {
                    Some(u) => Some(u@),
                    None => None,
                },
                ..s
            },
        ),
        signal_after_command(s, SignalCommand::SetAsMultiplexer) == Ok::<SignalView, SignalError>(
            SignalView { multiplexer: true, ..s },
        ),
        signal_after_command(s, SignalCommand::RemoveAsMultiplexer) == Ok::<
            SignalView,
            SignalError,
        >(SignalView { multiplexer: false, ..s }),
{
}

/// A receiver is added exactly when it is not there yet, at the end of the
/// list; it is removed exactly when it is there, and then its first
/// occurrence goes and the other receivers keep their order.
pub proof fn lemma_receiver_outcomes(s: SignalView, n: NodeId)
    ensures
        !s.receivers.contains(n) ==> signal_after_command(s, SignalCommand::AddReceiver(n)) == Ok::<
            SignalView,
            SignalError,
        >(SignalView { receivers: s.receivers.push(n), ..s }),
        s.receivers.contains(n) ==> signal_after_command(s, SignalCommand::AddReceiver(n)) == Err::<
            SignalView,
            SignalError,
        >(SignalError::ReceiverAlreadyPresent),
        !s.receivers.contains(n) ==> signal_after_command(s, SignalCommand::RemoveReceiver(n))
            == Err::<SignalView, SignalError>(SignalError::ReceiverNotPresent),
        s.receivers.contains(n) ==> (exists|i: int|
            0 <= i < s.receivers.len() && s.receivers[i] == n && (forall|j: int|
                0 <= j < i ==> s.receivers[j] != n) && signal_after_command(
                s,
                SignalCommand::RemoveReceiver(n),
            ) == Ok::<SignalView, SignalError>(
                SignalView { receivers: s.receivers.remove(i), ..s },
            )),
{
    s.receivers.index_of_first_ensures(n);
}

/// A multiplexer is attached exactly when the signal has none; it is detached
/// exactly when the signal has one with the given identifier.
pub proof fn lemma_multiplexer_outcomes(s: SignalView, m: SignalMultiplexer, id: SignalId)
    ensures
        s.multiplexed_by is None ==> signal_after_command(s, SignalCommand::AddMultiplexer(m))
            == Ok::<SignalView, SignalError>(SignalView { multiplexed_by: Some(m@), ..s }),
        s.multiplexed_by is Some ==> signal_after_command(s, SignalCommand::AddMultiplexer(m))
            == Err::<SignalView, SignalError>(SignalError::MultiplexerAlreadyPresent),
        (s.multiplexed_by matches Some(x) && x.id == id) ==> signal_after_command(
            s,
            SignalCommand::RemoveMultiplexer(id),
        ) == Ok::<SignalView, SignalError>(SignalView { multiplexed_by: None, ..s }),
        !(s.multiplexed_by matches Some(x) && x.id == id) ==> signal_after_command(
            s,
            SignalCommand::RemoveMultiplexer(id),
        ) == Err::<SignalView, SignalError>(SignalError::MultiplexerSignalNotPresent),
{
}

/// A range is added to the multiplexer exactly when there is one and the
/// range is not in it yet, at the end; it is removed exactly when it is in it,
/// its first occurrence going. Without a multiplexer both are refused.
pub proof fn lemma_range_outcomes(s: SignalView, r: RangeInclusive<u64>)
    ensures
        s.multiplexed_by is None ==> signal_after_command(s, SignalCommand::AddMultiplexerRange(r))
            == Err::<SignalView, SignalError>(SignalError::MultiplexerSignalNotPresent),
        s.multiplexed_by is None ==> signal_after_command(
            s,
            SignalCommand::RemoveMultiplexerRange(r),
        ) == Err::<SignalView, SignalError>(SignalError::MultiplexerSignalNotPresent),
        (s.multiplexed_by matches Some(x) && !x.ranges.contains(r@)) ==> signal_after_command(
            s,
            SignalCommand::AddMultiplexerRange(r),
        ) == Ok::<SignalView, SignalError>(
            SignalView {
                multiplexed_by: Some(
                    MultiplexerView {
                        id: s.multiplexed_by.unwrap().id,
                        ranges: s.multiplexed_by.unwrap().ranges.push(r@),
                    },
                ),
                ..s
            },
        ),
        (s.multiplexed_by matches Some(x) && x.ranges.contains(r@)) ==> signal_after_command(
            s,
            SignalCommand::AddMultiplexerRange(r),
        ) == Err::<SignalView, SignalError>(SignalError::MultiplexerSignalRangeAlreadyPresent),
        (s.multiplexed_by matches Some(x) && !x.ranges.contains(r@)) ==> signal_after_command(
            s,
            SignalCommand::RemoveMultiplexerRange(r),
        ) == Err::<SignalView, SignalError>(SignalError::MultiplexerSignalRangeNotPresent),
        (s.multiplexed_by matches Some(x) && x.ranges.contains(r@)) ==> (exists|i: int|
            0 <= i < s.multiplexed_by.unwrap().ranges.len() && s.multiplexed_by.unwrap().ranges[i]
                == r@ && (forall|j: int|
                0 <= j < i ==> s.multiplexed_by.unwrap().ranges[j] != r@) && signal_after_command(
                s,
                SignalCommand::RemoveMultiplexerRange(r),
            ) == Ok::<SignalView, SignalError>(
                SignalView {
                    multiplexed_by: Some(
                        MultiplexerView {
                            id: s.multiplexed_by.unwrap().id,
                            ranges: s.multiplexed_by.unwrap().ranges.remove(i),
                        },
                    ),
                    ..s
                },
            )),
{
    if let Some(x) = s.multiplexed_by {
        x.ranges.index_of_first_ensures(r@);
    }
}

/// Removing the first occurrence of an element keeps a list free of duplicates.
proof fn lemma_remove_keeps_unique<A>(s: Seq<A>, i: int)
    requires
        s.no_duplicates(),
        0 <= i < s.len(),
    ensures
        s.remove(i).no_duplicates(),
{
    let t = s.remove(i);
    assert forall|a: int, b: int| 0 <= a < t.len() && 0 <= b < t.len() && a != b implies t[a]
        != t[b] by {
        let sa = if a < i { a } else { a + 1 };
        let sb = if b < i { b } else { b + 1 };
        assert(t[a] == s[sa]);
        assert(t[b] == s[sb]);
    }
}

/// No command puts a receiver on a signal twice.
pub proof fn lemma_receivers_stay_unique(s: SignalView, cmd: SignalCommand)
    requires
        s.receivers.no_duplicates(),
    ensures
        signal_after_command(s, cmd) matches Ok(t) ==> t.receivers.no_duplicates(),
{
    match cmd {
        SignalCommand::RemoveReceiver(n) => {
            s.receivers.index_of_first_ensures(n);
            if let Some(i) = s.receivers.index_of_first(n) {
                lemma_remove_keeps_unique(s.receivers, i);
            }
        },
        _ => {},
    }
}

/// No command puts a range on a multiplexer reference twice, provided an
/// attached multiplexer comes without repeated ranges.
pub proof fn lemma_ranges_stay_unique(s: SignalView, cmd: SignalCommand)
    requires
        s.multiplexed_by matches Some(m) ==> m.ranges.no_duplicates(),
        cmd matches SignalCommand::AddMultiplexer(m) ==> m@.ranges.no_duplicates(),
    ensures
        signal_after_command(s, cmd) matches Ok(t) ==> (t.multiplexed_by matches Some(m)
            ==> m.ranges.no_duplicates()),
{
    match cmd {
        SignalCommand::RemoveMultiplexerRange(r) => {
            if let Some(m) = s.multiplexed_by {
                m.ranges.index_of_first_ensures(r@);
                if let Some(i) = m.ranges.index_of_first(r@) {
                    lemma_remove_keeps_unique(m.ranges, i);
                }
            }
        },
        _ => {},
    }
}

/// A signal of a message: its name, where it lies in the payload, its unit,
/// the nodes that receive it and how it is multiplexed.
#[derive(Debug, Clone, PartialEq)]
pub struct Signal {
    name: String,
    layout: SignalLayout,
    unit: Option<String>,
    receivers: Vec<NodeId>,
    multiplexer: bool,
    multiplexed_by: Option<SignalMultiplexer>,
    message_id: MessageId,
}

impl View for Signal {
    type V = SignalView;

    closed spec fn view(&self) -> SignalView {
        SignalView {
            name: self.name@,
            layout: self.layout,
            unit: unit_view(self.unit),
            receivers: self.receivers@,
            multiplexer: self.multiplexer,
            multiplexed_by: multiplexer_view(self.multiplexed_by),
            message_id: self.message_id,
        }
    }
}

impl Signal {
    /// A signal of the message `message_id`, with no unit, no receivers, and
    /// neither multiplexing nor multiplexed.
    pub fn new(name: &str, layout: SignalLayout, message_id: MessageId) -> (res: Self)
        ensures
            res@.name == name@,
            res@.layout == layout,
            res@.unit is None,
            res@.receivers == Seq::<NodeId>::empty(),
            !res@.multiplexer,
            res@.multiplexed_by is None,
            res@.message_id == message_id,
    {
        Signal {
            name: name.to_owned(),
            layout,
            unit: None,
            receivers: Vec::new(),
            multiplexer: false,
            multiplexed_by: None,
            message_id,
        }
    }

    pub fn get_name(&self) -> (res: &str)
        ensures
            res@ == self@.name,
    {
        self.name.as_str()
    }

    pub fn get_layout(&self) -> (res: &SignalLayout)
        ensures
            *res == self@.layout,
    {
        &self.layout
    }

    pub fn get_unit(&self) -> (res: Option<&String>)
        ensures
            match res {
                Some(u) => self@.unit == Some(u@),
                None => self@.unit is None,
            },
    {
        self.unit.as_ref()
    }

    pub fn get_receivers(&self) -> (res: &Vec<NodeId>)
        ensures
            res@ == self@.receivers,
    {
        &self.receivers
    }

    pub fn is_multiplexer(&self) -> (res: bool)
        ensures
            res == self@.multiplexer,
    {
        self.multiplexer
    }

    pub fn get_signal_multiplexer(&self) -> (res: Option<&SignalMultiplexer>)
        ensures
            match res {
                Some(m) => self@.multiplexed_by == Some(m@),
                None => self@.multiplexed_by is None,
            },
    {
        self.multiplexed_by.as_ref()
    }

    pub fn get_message_id(&self) -> (res: MessageId)
        ensures
            res == self@.message_id,
    {
        self.message_id
    }

    pub fn apply_command(&mut self, cmd: SignalCommand) -> (res: Result<(), SignalError>)
        ensures
            match signal_after_command(old(self)@, cmd) {
                Ok(s) => res is Ok && final(self)@ == s,
                Err(e) => res == Err::<(), SignalError>(e) && final(self)@ == old(self)@,
            },
    {
        match cmd {
            SignalCommand::Rename(new_name) => {
                self.name = new_name;
                Ok(())
            },
            SignalCommand::ChangeLayout(new_layout) => {
                self.layout = new_layout;
                Ok(())
            },
            SignalCommand::ChangeUnit(new_unit) => {
                self.unit = new_unit;
                Ok(())
            },
            SignalCommand::AddReceiver(n_id) => {
                if position_of_receiver(&self.receivers, n_id).is_some() {
                    proof {
                        self.receivers@.index_of_first_ensures(n_id);
                    }
                    Err(SignalError::ReceiverAlreadyPresent)
                } else {
                    self.receivers.push(n_id);
                    Ok(())
                }
            },
            SignalCommand::RemoveReceiver(n_id) => {
                if let Some(pos) = position_of_receiver(&self.receivers, n_id) {
                    self.receivers.remove(pos);
                    Ok(())
                } else {
                    proof {
                        self.receivers@.index_of_first_ensures(n_id);
                    }
                    Err(SignalError::ReceiverNotPresent)
                }
            },
            SignalCommand::SetAsMultiplexer => {
                self.multiplexer = true;
                Ok(())
            },
            SignalCommand::RemoveAsMultiplexer => {
                self.multiplexer = false;
                Ok(())
            },
            SignalCommand::AddMultiplexer(new_multiplexer) => {
                if self.multiplexed_by.is_none() {
                    self.multiplexed_by = Some(new_multiplexer);
                    Ok(())
                } else {
                    Err(SignalError::MultiplexerAlreadyPresent)
                }
            },
            SignalCommand::RemoveMultiplexer(old_multiplexer) => {
                if self.multiplexed_by.is_none() {
                    return Err(SignalError::MultiplexerSignalNotPresent);
                }
                if let Some(sig_mul) = &self.multiplexed_by {
                    if sig_mul.get_id() != old_multiplexer {
                        return Err(SignalError::MultiplexerSignalNotPresent);
                    }
                }
                self.multiplexed_by = None;
                Ok(())
            },
            SignalCommand::AddMultiplexerRange(m_range) => {
                if let Some(mul_sig) = &mut self.multiplexed_by {
                    if position_of_range(mul_sig.get_ranges(), &m_range).is_some() {
                        proof {
                            mul_sig@.ranges.index_of_first_ensures(m_range@);
                        }
                        return Err(SignalError::MultiplexerSignalRangeAlreadyPresent);
                    }
                    let ranges = mul_sig.get_ranges_mut();
                    let ghost before = ranges@;
                    ranges.push(m_range);
                    proof {
                        assert(range_views(ranges@) =~= range_views(before).push(m_range@));
                    }
                    Ok(())
                } else {
                    Err(SignalError::MultiplexerSignalNotPresent)
                }
            },
            SignalCommand::RemoveMultiplexerRange(m_range) => {
                if let Some(mul_sig) = &mut self.multiplexed_by {
                    if let Some(pos) = position_of_range(mul_sig.get_ranges(), &m_range) {
                        let ranges = mul_sig.get_ranges_mut();
                        let ghost before = ranges@;
                        ranges.remove(pos);
                        proof {
                            assert(range_views(ranges@) =~= range_views(before).remove(pos as int));
                        }
                        return Ok(());
                    }
                    proof {
                        mul_sig@.ranges.index_of_first_ensures(m_range@);
                    }
                    Err(SignalError::MultiplexerSignalRangeNotPresent)
                } else {
                    Err(SignalError::MultiplexerSignalNotPresent)
                }
            },
        }
    }
}

/// A change to a signal.
#[derive(Clone, PartialEq, Debug)]
pub enum SignalCommand {
    Rename(String),
    ChangeLayout(SignalLayout),
    ChangeUnit(Option<String>),
    AddReceiver(NodeId),
    RemoveReceiver(NodeId),
    SetAsMultiplexer,
    RemoveAsMultiplexer,
    AddMultiplexer(SignalMultiplexer),
    RemoveMultiplexer(SignalId),
    AddMultiplexerRange(RangeInclusive<u64>),
    RemoveMultiplexerRange(RangeInclusive<u64>),
}

/// Why a signal refuses a value or a change.
#[derive(Clone, Copy, Eq, PartialEq, Debug)]
pub enum SignalError {
    InvalidLength,
    MinMaxError,
    ReceiverAlreadyPresent,
    ReceiverNotPresent,
    MultiplexerAlreadyPresent,
    MultiplexerSignalNotPresent,
    MultiplexerSignalRangeAlreadyPresent,
    MultiplexerSignalRangeNotPresent,
}

} // verus!
