//! The number-theory panel: the extended Euclidean algorithm and the
//! exploration of the groups of residues modulo a number.

use crate::number_theory::{
    divisors, element_order, euclid_steps, euclid_table, factorize, group, group_elements,
    group_size, group_size_of, largest_exponent, MAX_MODULUS, lemma_group_size, modulus_in_range, orders, possible_orders,
    power_fits, prime_factors_of, producers, producers_computable, producers_of, GroupType,
};
use crate::text::{
    chars_of, field_from, find_separator, lemma_next_sep_bounds, next_sep, parse_i64, parse_int,
};
use vstd::prelude::*;

verus! {

/// Why the extended Euclidean algorithm was not run on the input.
#[derive(Clone, Copy, Debug, PartialEq, Eq, Structural)]
pub enum EeaError {
    /// The input is not two fields separated by `", "`.
    MissingInput,
    /// One of the two fields is not an integer.
    NotANumber,
    /// `a` is not smaller than `b`.
    NotSmaller,
    /// `a` is not positive.
    NotPositive,
}

pub open spec fn eea_error_text(e: EeaError) -> Seq<char> {
    match e {
        EeaError::MissingInput => "a and b are not given or format is wrong"@,
        EeaError::NotANumber => "a and/or b is not a number"@,
        EeaError::NotSmaller => "a must be smaller than b"@,
        EeaError::NotPositive => "a must be greater than 0"@,
    }
}

impl EeaError {
    /// The message shown to the user.
    pub fn message(&self) -> (r: String)
        ensures
            r@ == eea_error_text(*self),
    {
        match self {
            EeaError::MissingInput => String::from_str("a and b are not given or format is wrong"),
            EeaError::NotANumber => String::from_str("a and/or b is not a number"),
            EeaError::NotSmaller => String::from_str("a must be smaller than b"),
            EeaError::NotPositive => String::from_str("a must be greater than 0"),
        }
    }
}

/// The pair `(a, b)` that the text `"a, b"` asks the algorithm for, or why
/// there is none. Fields after the second are ignored.
pub open spec fn eea_input(s: Seq<char>) -> Result<(i64, i64), EeaError> {
    let k = next_sep(s, 0);
    if k >= s.len() {
        Err(EeaError::MissingInput)
    } else {
        let a = parse_i64(s.subrange(0, k));
        let b = parse_i64(field_from(s, k + 2));
        if a.is_none() || b.is_none() {
            Err(EeaError::NotANumber)
        } else if a.unwrap() >= b.unwrap() {
            Err(EeaError::NotSmaller)
        } else if a.unwrap() <= 0 {
            Err(EeaError::NotPositive)
        } else {
            Ok((a.unwrap(), b.unwrap()))
        }
    }
}

/// Reads the input of the Euclidean panel.
pub fn read_eea_input(text: &str) -> (r: Result<(i64, i64), EeaError>)
    ensures
        r == eea_input(text@),
{
    let s = chars_of(text);
    let k = find_separator(&s, 0);
    proof {
        lemma_next_sep_bounds(s@, 0);
    }
    if k >= s.len() {
        return Err(EeaError::MissingInput);
    }
    let end = find_separator(&s, k + 2);
    proof {
        lemma_next_sep_bounds(s@, k + 2);
    }
    let a = parse_int(&s, 0, k);
    let b = parse_int(&s, k + 2, end);
    match (a, b) {
        (Some(a), Some(b)) => {
            if a >= b {
                Err(EeaError::NotSmaller)
            } else if a <= 0 {
                Err(EeaError::NotPositive)
            } else {
                Ok((a, b))
            }
        },
        _ => Err(EeaError::NotANumber),
    }
}

/// The events of the Euclidean panel: the text changed, or a calculation
/// was asked for.
#[derive(Debug, Clone)]
pub enum IcedEEAMessage {
    EditValue(String),
    Calculate,
}

/// The Euclidean panel: the text being edited, the last table computed and
/// the last error.
#[derive(Debug, Clone)]
pub struct IcedEEA {
    pub edit_text: String,
    pub result: Option<Vec<Vec<i64>>>,
    pub error: Option<EeaError>,
}

/// `new` is what `update` makes of `old` on `message`: editing replaces the
/// text; calculating either stores the table of the pair read from the text
/// and clears the error, or sets the error and keeps the previous table.
pub open spec fn eea_updated(old: IcedEEA, message: IcedEEAMessage, new: IcedEEA) -> bool {
    match message {
        IcedEEAMessage::EditValue(content) => new == IcedEEA { edit_text: content, ..old },
        IcedEEAMessage::Calculate => {
            &&& new.edit_text == old.edit_text
            &&& match eea_input(old.edit_text@) {
                Ok((a, b)) => {
                    &&& new.error.is_none()
                    &&& new.result.is_some()
                    &&& new.result.unwrap().deep_view() == euclid_table(a, b)
                },
                Err(e) => new.error == Some(e) && new.result == old.result,
            }
        },
    }
}

impl IcedEEA {
    pub fn new() -> (r: Self)
        ensures
            r.edit_text@.len() == 0,
            r.result.is_none(),
            r.error.is_none(),
    {
        IcedEEA { edit_text: String::new(), result: None, error: None }
    }

    pub fn update(&mut self, message: IcedEEAMessage)
        ensures
            eea_updated(*old(self), message, *final(self)),
    {
        match message {
            IcedEEAMessage::EditValue(content) => {
                self.edit_text = content;
            },
            IcedEEAMessage::Calculate => {
                self.error = None;
                match read_eea_input(self.edit_text.as_str()) {
                    Ok((a, b)) => {
                        self.result = Some(euclid_steps(a, b));
                    },
                    Err(e) => {
                        self.error = Some(e);
                    },
                }
            },
        }
    }

    /// The message of the last error, if any.
    pub fn error_message(&self) -> (r: Option<String>)
        ensures
            r.is_some() == self.error.is_some(),
            r.is_some() ==> r.unwrap()@ == eea_error_text(self.error.unwrap()),
    {
        match &self.error {
            Some(e) => Some(e.message()),
            None => None,
        }
    }
}

} // verus!

verus! {

/// Groups of more elements than this have their producers searched only on
/// request (the operations suffixed `b`).
pub const SMALL_GROUP_LIMIT: i64 = 54;

/// Why the group panel did not compute a group, or its producers.
#[derive(Clone, Copy, Debug, PartialEq, Eq, Structural)]
pub enum GroupsError {
    /// The input is not two fields separated by `", "`.
    MissingOperation,
    /// The modulus is not an integer, or the operation is none of
    /// `a`, `m`, `mb`, `m*` and `m*b`.
    InvalidInput,
    /// The modulus lies outside `2..=MAX_MODULUS`.
    ModulusOutOfRange,
    /// The group is large and the operation did not ask for the long search.
    ProducersNeedBig,
    /// The quick search would overflow on this group.
    ProducersOverflow,
}

pub open spec fn groups_error_text(e: GroupsError) -> Seq<char> {
    match e {
        GroupsError::MissingOperation => "input is not correct: num, a; num, m or num, m*"@,
        GroupsError::InvalidInput => "input is not correct: num, a or num, m"@,
        GroupsError::ModulusOutOfRange => "the modulus must lie between 2 and 3037000499"@,
        GroupsError::ProducersNeedBig => "to calculate producers bigger than 54 use 'm*b' or 'mb'"@,
        GroupsError::ProducersOverflow => "these producers overflow here, use 'm*b' or 'mb'"@,
    }
}

impl GroupsError {
    /// The message shown to the user.
    pub fn message(&self) -> (r: String)
        ensures
            r@ == groups_error_text(*self),
    {
        match self {
            GroupsError::MissingOperation => String::from_str(
                "input is not correct: num, a; num, m or num, m*",
            ),
            GroupsError::InvalidInput => String::from_str("input is not correct: num, a or num, m"),
            GroupsError::ModulusOutOfRange => String::from_str(
                "the modulus must lie between 2 and 3037000499",
            ),
            GroupsError::ProducersNeedBig => String::from_str(
                "to calculate producers bigger than 54 use 'm*b' or 'mb'",
            ),
            GroupsError::ProducersOverflow => String::from_str(
                "these producers overflow here, use 'm*b' or 'mb'",
            ),
        }
    }
}

/// What the group panel is asked for: a modulus, a kind of group, and
/// whether to run the long producer search.
#[derive(Clone, Copy, Debug, PartialEq, Eq, Structural)]
pub struct GroupRequest {
    pub modulus: i64,
    pub kind: GroupType,
    pub big: bool,
}

/// The operations `a`, `m`, `mb`, `m*` and `m*b`.
pub open spec fn operation_of(op: Seq<char>) -> Option<(GroupType, bool)> {
    if op.len() == 1 && op[0] == 'a' {
        Some((GroupType::Additive, false))
    } else if op.len() == 1 && op[0] == 'm' {
        Some((GroupType::Multiplicative, false))
    } else if op.len() == 2 && op[0] == 'm' && op[1] == 'b' {
        Some((GroupType::Multiplicative, true))
    } else if op.len() == 2 && op[0] == 'm' && op[1] == '*' {
        Some((GroupType::MultiplicativeStar, false))
    } else if op.len() == 3 && op[0] == 'm' && op[1] == '*' && op[2] == 'b' {
        Some((GroupType::MultiplicativeStar, true))
    } else {
        None
    }
}

/// The request that the text `"modulus, operation"` makes, or why it makes
/// none. Fields after the second are ignored.
pub open spec fn group_input(s: Seq<char>) -> Result<GroupRequest, GroupsError> {
    let k = next_sep(s, 0);
    if k >= s.len() {
        Err(GroupsError::MissingOperation)
    } else {
        let m = parse_i64(s.subrange(0, k));
        let op = operation_of(field_from(s, k + 2));
        if m.is_none() || op.is_none() {
            Err(GroupsError::InvalidInput)
        } else if !modulus_in_range(m.unwrap() as int) {
            Err(GroupsError::ModulusOutOfRange)
        } else {
            Ok(GroupRequest { modulus: m.unwrap(), kind: op.unwrap().0, big: op.unwrap().1 })
        }
    }
}

fn read_operation(s: &Vec<char>, start: usize, end: usize) -> (r: Option<(GroupType, bool)>)
    requires
        start <= end <= s.len(),
    ensures
        r == operation_of(s@.subrange(start as int, end as int)),
{
    let ghost op = s@.subrange(start as int, end as int);
    let n = end - start;
    assert(n >= 1 ==> op[0] == s@[start as int]);
    assert(n >= 2 ==> op[1] == s@[start + 1]);
    assert(n >= 3 ==> op[2] == s@[start + 2]);
    if n == 1 && s[start] == 'a' {
        Some((GroupType::Additive, false))
    } else if n == 1 && s[start] == 'm' {
        Some((GroupType::Multiplicative, false))
    } else if n == 2 && s[start] == 'm' && s[start + 1] == 'b' {
        Some((GroupType::Multiplicative, true))
    } else if n == 2 && s[start] == 'm' && s[start + 1] == '*' {
        Some((GroupType::MultiplicativeStar, false))
    } else if n == 3 && s[start] == 'm' && s[start + 1] == '*' && s[start + 2] == 'b' {
        Some((GroupType::MultiplicativeStar, true))
    } else {
        None
    }
}

/// Reads the input of the group panel.
pub fn read_group_input(text: &str) -> (r: Result<GroupRequest, GroupsError>)
    ensures
        r == group_input(text@),
{
    let s = chars_of(text);
    let k = find_separator(&s, 0);
    proof {
        lemma_next_sep_bounds(s@, 0);
    }
    if k >= s.len() {
        return Err(GroupsError::MissingOperation);
    }
    let end = find_separator(&s, k + 2);
    proof {
        lemma_next_sep_bounds(s@, k + 2);
    }
    let m = parse_int(&s, 0, k);
    let op = read_operation(&s, k + 2, end);
    match (m, op) {
        (Some(m), Some((kind, big))) => {
            if m < 2 || m > MAX_MODULUS {
                Err(GroupsError::ModulusOutOfRange)
            } else {
                Ok(GroupRequest { modulus: m, kind, big })
            }
        },
        _ => Err(GroupsError::InvalidInput),
    }
}

/// The events of the group panel: the text changed, or a calculation was
/// asked for.
#[derive(Debug, Clone)]
pub enum IcedGroupMessage {
    EditValue(String),
    Calculate,
}

/// The group panel: the text being edited and everything computed for the
/// last request.
#[derive(Debug, Clone)]
pub struct IcedGroups {
    pub edit_text: String,
    pub group_type: GroupType,
    pub prime_factors: Vec<i64>,
    pub group_size: i64,
    pub group_size_prime_factors: Vec<i64>,
    pub group: Vec<i64>,
    pub possible_orders: Vec<i64>,
    pub orders: Vec<(i64, i64)>,
    pub producers: Vec<i64>,
    pub error: Option<GroupsError>,
}

/// Whether the producers of a group of `size` elements are searched: always
/// for small or additive groups, otherwise only on request.
pub open spec fn producers_wanted(req: GroupRequest, size: int) -> bool {
    size <= SMALL_GROUP_LIMIT || req.kind == GroupType::Additive || req.big
}

/// Everything the panel shows for a valid request, as glucose computes it.
pub open spec fn group_computed(req: GroupRequest, new: IcedGroups) -> bool {
    let m = req.modulus;
    let size = group_size_of(m as int, req.kind);
    &&& new.group_type == req.kind
    &&& new.prime_factors@ == prime_factors_of(m)
    &&& new.group_size == size
    &&& new.group_size_prime_factors@ == prime_factors_of(size as i64)
    &&& new.group@ == group_elements(m as int, req.kind)
    &&& new.possible_orders@ == divisors(size)
    &&& new.orders@.len() == new.group@.len()
    &&& forall|i: int|
        0 <= i < new.group@.len() ==> #[trigger] new.orders@[i] == (
            new.group@[i],
            element_order(m, new.group@[i], req.kind),
        )
    &&& if !producers_wanted(req, size) {
        new.producers@.len() == 0 && new.error == Some(GroupsError::ProducersNeedBig)
    } else if !producers_computable(m as int, size, req.kind, req.big) {
        new.producers@.len() == 0 && new.error == Some(GroupsError::ProducersOverflow)
    } else {
        new.producers@ == producers_of(m, new.group@, req.kind, req.big) && new.error.is_none()
    }
}

/// `new` is what `update` makes of `old` on `message`: editing replaces the
/// text; calculating either recomputes the whole result for the request read
/// from the text, or sets the error and keeps the previous result.
pub open spec fn groups_updated(old: IcedGroups, message: IcedGroupMessage, new: IcedGroups) -> bool {
    match message {
        IcedGroupMessage::EditValue(content) => new == IcedGroups { edit_text: content, ..old },
        IcedGroupMessage::Calculate => match group_input(old.edit_text@) {
            Ok(req) => new.edit_text == old.edit_text && group_computed(req, new),
            Err(e) => new == IcedGroups { error: Some(e), ..old },
        },
    }
}

impl IcedGroups {
    pub fn new() -> (r: Self)
        ensures
            r.edit_text@.len() == 0,
            r.group_type == GroupType::MultiplicativeStar,
            r.prime_factors@.len() == 0,
            r.group_size == 0,
            r.group_size_prime_factors@.len() == 0,
            r.group@.len() == 0,
            r.possible_orders@.len() == 0,
            r.orders@.len() == 0,
            r.producers@.len() == 0,
            r.error.is_none(),
    {
        IcedGroups {
            edit_text: String::new(),
            group_type: GroupType::MultiplicativeStar,
            prime_factors: Vec::new(),
            group_size: 0,
            group_size_prime_factors: Vec::new(),
            group: Vec::new(),
            possible_orders: Vec::new(),
            orders: Vec::new(),
            producers: Vec::new(),
            error: None,
        }
    }

    pub fn update(&mut self, message: IcedGroupMessage)
        ensures
            groups_updated(*old(self), message, *final(self)),
    {
        match message {
            IcedGroupMessage::EditValue(content) => {
                self.edit_text = content;
            },
            IcedGroupMessage::Calculate => {
                match read_group_input(self.edit_text.as_str()) {
                    Ok(req) => self.calculate(req),
                    Err(e) => {
                        self.error = Some(e);
                    },
                }
            },
        }
    }

    fn calculate(&mut self, req: GroupRequest)
        requires
            modulus_in_range(req.modulus as int),
        ensures
            final(self).edit_text == old(self).edit_text,
            group_computed(req, *final(self)),
    {
        let m = req.modulus;
        let kind = req.kind;
        proof {
            lemma_group_size(m as int, kind);
        }
        self.error = None;
        self.group_type = kind;
        self.prime_factors = factorize(m);
        self.group_size = group_size(m, kind);
        self.group_size_prime_factors = factorize(self.group_size);
        self.group = group(m, kind);
        self.possible_orders = possible_orders(m, kind);
        self.orders = orders(m, &self.group, kind);
        let size = self.group_size;
        if !(size <= SMALL_GROUP_LIMIT || kind == GroupType::Additive || req.big) {
            self.producers = Vec::new();
            self.error = Some(GroupsError::ProducersNeedBig);
        } else {
            let computable = kind == GroupType::Additive || req.big || {
                let n = self.group.len() as i64;
                let exp: i64 = if n < 2 {
                    1
                } else {
                    n / 2
                };
                assert(exp as nat == largest_exponent(n as int));
                power_fits(m - 1, exp)
            };
            if computable {
                self.producers = producers(m, &self.group, kind, req.big);
            } else {
                self.producers = Vec::new();
                self.error = Some(GroupsError::ProducersOverflow);
            }
        }
    }

    /// The message of the last error, if any.
    pub fn error_message(&self) -> (r: Option<String>)
        ensures
            r.is_some() == self.error.is_some(),
            r.is_some() ==> r.unwrap()@ == groups_error_text(self.error.unwrap()),
    {
        match &self.error {
            Some(e) => Some(e.message()),
            None => None,
        }
    }
}

} // verus!

verus! {

/// Which panel of the number-theory page is open.
#[derive(Debug, Clone)]
pub enum GroupTheorySubState {
    Home,
    EEA(IcedEEA),
    Groups(IcedGroups),
}

/// The events of the number-theory page: a panel was chosen, or an event of
/// one of the panels.
#[derive(Debug, Clone)]
pub enum GroupTheoryMessage {
    SwitchState(GroupTheorySubState),
    IcedEEAMessage(IcedEEAMessage),
    IcedGroupMessage(IcedGroupMessage),
}

/// The number-theory page: one open panel at a time.
#[derive(Debug, Clone)]
pub struct IcedGroupTheory {
    pub state: GroupTheorySubState,
}

/// `new` is what `update` makes of `old` on `message`: switching replaces the
/// panel; a panel's message goes to that panel when it is open and is
/// dropped otherwise.
pub open spec fn group_theory_updated(
    old: IcedGroupTheory,
    message: GroupTheoryMessage,
    new: IcedGroupTheory,
) -> bool {
    match message {
        GroupTheoryMessage::SwitchState(state) => new.state == state,
        GroupTheoryMessage::IcedEEAMessage(m) => match old.state {
            GroupTheorySubState::EEA(e) => match new.state {
                GroupTheorySubState::EEA(e2) => eea_updated(e, m, e2),
                _ => false,
            },
            _ => new == old,
        },
        GroupTheoryMessage::IcedGroupMessage(m) => match old.state {
            GroupTheorySubState::Groups(g) => match new.state {
                GroupTheorySubState::Groups(g2) => groups_updated(g, m, g2),
                _ => false,
            },
            _ => new == old,
        },
    }
}

impl IcedGroupTheory {
    pub fn new() -> (r: Self)
        ensures
            r.state == GroupTheorySubState::Home,
    {
        IcedGroupTheory { state: GroupTheorySubState::Home }
    }

    pub fn update(&mut self, message: GroupTheoryMessage)
        ensures
            group_theory_updated(*old(self), message, *final(self)),
    {
        match message {
            GroupTheoryMessage::SwitchState(state) => {
                self.state = state;
            },
            GroupTheoryMessage::IcedEEAMessage(message) => match &mut self.state {
                GroupTheorySubState::EEA(state) => state.update(message),
                _ => {},
            },
            GroupTheoryMessage::IcedGroupMessage(message) => match &mut self.state {
                GroupTheorySubState::Groups(state) => state.update(message),
                _ => {},
            },
        }
    }
}

} // verus!
