use vstd::prelude::*;

verus! {

broadcast use vstd::std_specs::vec::axiom_vec_index_decreases;

/// A number as the document writes it: an integer, or a floating-point value
/// carried as the bit pattern of an IEEE-754 double.
#[derive(Clone, Copy, Debug, PartialEq, Eq, Structural)]
pub enum Number {
    Int(i64),
    FloatBits(u64),
}

/// A parsed configuration document: a tree of tables, arrays and scalars.
/// Floating-point values are held as the bit pattern of an IEEE-754 double.
#[derive(Debug)]
pub enum TomlValue {
    Str(String),
    Int(i64),
    Float(u64),
    Bool(bool),
    Datetime(String),
    Array(Vec<TomlValue>),
    Table(Vec<TomlEntry>),
}

/// One `key = value` pair of a table, in document order.
#[derive(Debug)]
pub struct TomlEntry {
    pub key: String,
    pub value: TomlValue,
}

/// What kind of value a position of the document was expected to hold.
#[derive(Clone, Copy, Debug, PartialEq, Eq, Structural)]
pub enum ValueKind {
    String,
    Integer,
    Number,
    Boolean,
    Array,
    Table,
    KeyOrBool,
}

/// One step of a path into the document: a table key or an array index.
#[derive(Debug)]
pub enum PathSegment {
    Key(String),
    Index(usize),
}

/// Why a document was refused.
#[derive(Debug)]
pub enum DecodeReason {
    /// A required key is absent from the table that the path names.
    MissingField(String),
    /// The value that the path names is not of the expected kind.
    Expected(ValueKind),
    /// The integer that the path names does not fit the field.
    OutOfRange,
    /// The list that the path names is empty where values are required.
    EmptyList,
    /// The table that the path names holds none of the keys that tell
    /// command families apart.
    UnknownCommand,
    /// The indicator name that the path names is not known.
    UnknownIndicator(String),
    /// The log level that the path names is not known.
    UnknownLogLevel(String),
}

/// A refusal, with the path from the document root to the offending value.
#[derive(Debug)]
pub struct DecodeError {
    pub path: Vec<PathSegment>,
    pub reason: DecodeReason,
}

pub enum SegView {
    Key(Seq<char>),
    Index(int),
}

pub enum ReasonView {
    MissingField(Seq<char>),
    Expected(ValueKind),
    OutOfRange,
    EmptyList,
    UnknownCommand,
    UnknownIndicator(Seq<char>),
    UnknownLogLevel(Seq<char>),
}

pub struct ErrorView {
    pub path: Seq<SegView>,
    pub reason: ReasonView,
}

impl PathSegment {
    pub open spec fn view(&self) -> SegView {
        match self {
            PathSegment::Key(k) => SegView::Key(k@),
            PathSegment::Index(i) => SegView::Index(*i as int),
        }
    }
}

impl DecodeReason {
    pub open spec fn view(&self) -> ReasonView {
        match self {
            DecodeReason::MissingField(k) => ReasonView::MissingField(k@),
            DecodeReason::Expected(k) => ReasonView::Expected(*k),
            DecodeReason::OutOfRange => ReasonView::OutOfRange,
            DecodeReason::EmptyList => ReasonView::EmptyList,
            DecodeReason::UnknownCommand => ReasonView::UnknownCommand,
            DecodeReason::UnknownIndicator(s) => ReasonView::UnknownIndicator(s@),
            DecodeReason::UnknownLogLevel(s) => ReasonView::UnknownLogLevel(s@),
        }
    }
}

impl DecodeError {
    pub open spec fn view(&self) -> ErrorView {
        ErrorView {
            path: self.path@.map_values(|s: PathSegment| s.view()),
            reason: self.reason.view(),
        }
    }
}

pub open spec fn fail(reason: ReasonView) -> ErrorView {
    ErrorView { path: seq![], reason }
}

/// The same error, seen from one level further up the document.
pub open spec fn under(seg: SegView, e: ErrorView) -> ErrorView {
    ErrorView { path: seq![seg] + e.path, reason: e.reason }
}

pub open spec fn under_key(k: Seq<char>, e: ErrorView) -> ErrorView {
    under(SegView::Key(k), e)
}

/// The view of a decoding result, for results whose value views as itself.
pub open spec fn res_view<T>(r: Result<T, DecodeError>) -> Result<T, ErrorView> {
    match r {
        Ok(x) => Ok(x),
        Err(e) => Err(e@),
    }
}

pub open spec fn opt_str_view(o: Option<String>) -> Option<Seq<char>> {
    match o {
        Some(s) => Some(s@),
        None => None,
    }
}

/// The position of the first entry of `t` with key `k`, at or after `i`.
pub open spec fn key_pos_from(t: Seq<TomlEntry>, k: Seq<char>, i: int) -> int
    decreases t.len() - i,
{
    if i < 0 || i >= t.len() {
        -1
    } else if t[i].key@ == k {
        i
    } else {
        key_pos_from(t, k, i + 1)
    }
}

/// The value of the first entry of `t` with key `k`.
pub open spec fn lookup(t: Seq<TomlEntry>, k: Seq<char>) -> Option<TomlValue> {
    let p = key_pos_from(t, k, 0);
    if 0 <= p < t.len() {
        Some(t[p].value)
    } else {
        None
    }
}

proof fn lemma_key_pos_range(t: Seq<TomlEntry>, k: Seq<char>, i: int)
    ensures
        key_pos_from(t, k, i) == -1 || (i <= key_pos_from(t, k, i) < t.len()),
    decreases t.len() - i,
{
    if 0 <= i < t.len() && t[i].key@ != k {
        lemma_key_pos_range(t, k, i + 1);
    }
}

/// Character-wise equality of two strings.
pub fn str_eq(a: &str, b: &str) -> (r: bool)
    ensures
        r == (a@ == b@),
{
    let n = a.unicode_len();
    if n != b.unicode_len() {
        return false;
    }
    let mut i: usize = 0;
    while i < n
        invariant
            i <= n,
            n == a@.len(),
            n == b@.len(),
            forall|j: int| 0 <= j < i ==> a@[j] == b@[j],
        decreases n - i,
    {
        if a.get_char(i) != b.get_char(i) {
            return false;
        }
        i = i + 1;
    }
    assert(a@ =~= b@);
    true
}

/// The position of the first entry with key `k`.
pub fn find_key(t: &Vec<TomlEntry>, k: &str) -> (r: Option<usize>)
    ensures
        match r {
            Some(p) => p == key_pos_from(t@, k@, 0) && p < t@.len(),
            None => key_pos_from(t@, k@, 0) == -1,
        },
        r is Some <==> lookup(t@, k@) is Some,
        r is Some ==> lookup(t@, k@) == Some(t@[r->Some_0 as int].value),
{
    let mut i: usize = 0;
    while i < t.len()
        invariant
            i <= t@.len(),
            key_pos_from(t@, k@, 0) == key_pos_from(t@, k@, i as int),
        decreases t@.len() - i,
    {
        if str_eq(t[i].key.as_str(), k) {
            proof {
                lemma_key_pos_range(t@, k@, 0);
            }
            return Some(i);
        }
        i = i + 1;
    }
    None
}

pub fn new_error(reason: DecodeReason) -> (r: DecodeError)
    ensures
        r@ == fail(reason@),
{
    let r = DecodeError { path: Vec::new(), reason };
    assert(r@.path =~= seq![]);
    r
}

/// Prefixes the error's path with one more step.
pub fn error_under(seg: PathSegment, e: DecodeError) -> (r: DecodeError)
    ensures
        r@ == under(seg@, e@),
{
    let ghost sv = seg@;
    let mut path = e.path;
    path.insert(0, seg);
    let r = DecodeError { path, reason: e.reason };
    assert(r@.path =~= seq![sv] + e@.path);
    r
}

pub fn error_under_key(k: &str, e: DecodeError) -> (r: DecodeError)
    ensures
        r@ == under_key(k@, e@),
{
    error_under(PathSegment::Key(String::from_str(k)), e)
}

} // verus!

verus! {

/// An optional key specification: absent is `None`; present, it must be a string.
pub open spec fn opt_key_spec(t: Seq<TomlEntry>, k: Seq<char>) -> Result<Option<Seq<char>>, ErrorView> {
    match lookup(t, k) {
        None => Ok(None),
        Some(TomlValue::Str(s)) => Ok(Some(s@)),
        Some(_) => Err(under_key(k, fail(ReasonView::Expected(ValueKind::String)))),
    }
}

/// A required key specification that may be replaced by a boolean placeholder,
/// which stands for "no hotkey".
pub open spec fn placeholder_key_spec(t: Seq<TomlEntry>, k: Seq<char>) -> Result<Option<Seq<char>>, ErrorView> {
    match lookup(t, k) {
        None => Err(fail(ReasonView::MissingField(k))),
        Some(TomlValue::Str(s)) => Ok(Some(s@)),
        Some(TomlValue::Bool(_)) => Ok(None),
        Some(_) => Err(under_key(k, fail(ReasonView::Expected(ValueKind::KeyOrBool)))),
    }
}

pub open spec fn req_str_spec(t: Seq<TomlEntry>, k: Seq<char>) -> Result<Seq<char>, ErrorView> {
    match lookup(t, k) {
        None => Err(fail(ReasonView::MissingField(k))),
        Some(TomlValue::Str(s)) => Ok(s@),
        Some(_) => Err(under_key(k, fail(ReasonView::Expected(ValueKind::String)))),
    }
}

pub open spec fn req_bool_spec(t: Seq<TomlEntry>, k: Seq<char>) -> Result<bool, ErrorView> {
    match lookup(t, k) {
        None => Err(fail(ReasonView::MissingField(k))),
        Some(TomlValue::Bool(b)) => Ok(b),
        Some(_) => Err(under_key(k, fail(ReasonView::Expected(ValueKind::Boolean)))),
    }
}

/// An optional flag that defaults to `false`.
pub open spec fn opt_bool_spec(t: Seq<TomlEntry>, k: Seq<char>) -> Result<bool, ErrorView> {
    match lookup(t, k) {
        None => Ok(false),
        Some(TomlValue::Bool(b)) => Ok(b),
        Some(_) => Err(under_key(k, fail(ReasonView::Expected(ValueKind::Boolean)))),
    }
}

pub open spec fn number_of(v: TomlValue) -> Option<Number> {
    match v {
        TomlValue::Int(i) => Some(Number::Int(i)),
        TomlValue::Float(b) => Some(Number::FloatBits(b)),
        _ => None,
    }
}

pub open spec fn req_number_spec(t: Seq<TomlEntry>, k: Seq<char>) -> Result<Number, ErrorView> {
    match lookup(t, k) {
        None => Err(fail(ReasonView::MissingField(k))),
        Some(v) => match number_of(v) {
            Some(n) => Ok(n),
            None => Err(under_key(k, fail(ReasonView::Expected(ValueKind::Number)))),
        },
    }
}

pub open spec fn req_u32_spec(t: Seq<TomlEntry>, k: Seq<char>) -> Result<u32, ErrorView> {
    match lookup(t, k) {
        None => Err(fail(ReasonView::MissingField(k))),
        Some(TomlValue::Int(i)) => if 0 <= i <= u32::MAX {
            Ok(i as u32)
        } else {
            Err(under_key(k, fail(ReasonView::OutOfRange)))
        },
        Some(_) => Err(under_key(k, fail(ReasonView::Expected(ValueKind::Integer)))),
    }
}

/// The first `n` items of an array, each a string; the first item that is not
/// gives the error, under its index.
pub open spec fn str_items(a: Seq<TomlValue>, n: int) -> Result<Seq<Seq<char>>, ErrorView>
    decreases n,
{
    if n <= 0 {
        Ok(seq![])
    } else {
        match str_items(a, n - 1) {
            Err(e) => Err(e),
            Ok(s) => match a[n - 1] {
                TomlValue::Str(x) => Ok(s.push(x@)),
                _ => Err(under(SegView::Index(n - 1), fail(ReasonView::Expected(ValueKind::String)))),
            },
        }
    }
}

/// The first `n` items of an array, each a number.
pub open spec fn number_items(a: Seq<TomlValue>, n: int) -> Result<Seq<Number>, ErrorView>
    decreases n,
{
    if n <= 0 {
        Ok(seq![])
    } else {
        match number_items(a, n - 1) {
            Err(e) => Err(e),
            Ok(s) => match number_of(a[n - 1]) {
                Some(x) => Ok(s.push(x)),
                None => Err(under(SegView::Index(n - 1), fail(ReasonView::Expected(ValueKind::Number)))),
            },
        }
    }
}

/// The first `n` items of an array, each an integer that fits an `i32`.
pub open spec fn i32_items(a: Seq<TomlValue>, n: int) -> Result<Seq<i32>, ErrorView>
    decreases n,
{
    if n <= 0 {
        Ok(seq![])
    } else {
        match i32_items(a, n - 1) {
            Err(e) => Err(e),
            Ok(s) => match a[n - 1] {
                TomlValue::Int(x) => if i32::MIN <= x <= i32::MAX {
                    Ok(s.push(x as i32))
                } else {
                    Err(under(SegView::Index(n - 1), fail(ReasonView::OutOfRange)))
                },
                _ => Err(under(SegView::Index(n - 1), fail(ReasonView::Expected(ValueKind::Integer)))),
            },
        }
    }
}

proof fn lemma_str_items_err(a: Seq<TomlValue>, m: int, n: int)
    requires
        0 <= m <= n,
        str_items(a, m) is Err,
    ensures
        str_items(a, n) == str_items(a, m),
    decreases n - m,
{
    if n > m {
        lemma_str_items_err(a, m, n - 1);
    }
}

proof fn lemma_number_items_err(a: Seq<TomlValue>, m: int, n: int)
    requires
        0 <= m <= n,
        number_items(a, m) is Err,
    ensures
        number_items(a, n) == number_items(a, m),
    decreases n - m,
{
    if n > m {
        lemma_number_items_err(a, m, n - 1);
    }
}

proof fn lemma_i32_items_err(a: Seq<TomlValue>, m: int, n: int)
    requires
        0 <= m <= n,
        i32_items(a, m) is Err,
    ensures
        i32_items(a, n) == i32_items(a, m),
    decreases n - m,
{
    if n > m {
        lemma_i32_items_err(a, m, n - 1);
    }
}

/// A required array of strings under key `k`.
pub open spec fn str_list_spec(t: Seq<TomlEntry>, k: Seq<char>) -> Result<Seq<Seq<char>>, ErrorView> {
    match lookup(t, k) {
        None => Err(fail(ReasonView::MissingField(k))),
        Some(TomlValue::Array(a)) => match str_items(a@, a@.len() as int) {
            Ok(s) => Ok(s),
            Err(e) => Err(under_key(k, e)),
        },
        Some(_) => Err(under_key(k, fail(ReasonView::Expected(ValueKind::Array)))),
    }
}

/// A required, non-empty array of numbers under key `k`.
pub open spec fn number_list_spec(t: Seq<TomlEntry>, k: Seq<char>) -> Result<Seq<Number>, ErrorView> {
    match lookup(t, k) {
        None => Err(fail(ReasonView::MissingField(k))),
        Some(TomlValue::Array(a)) => if a@.len() == 0 {
            Err(under_key(k, fail(ReasonView::EmptyList)))
        } else {
            match number_items(a@, a@.len() as int) {
                Ok(s) => Ok(s),
                Err(e) => Err(under_key(k, e)),
            }
        },
        Some(_) => Err(under_key(k, fail(ReasonView::Expected(ValueKind::Array)))),
    }
}

/// A required, non-empty array of `i32` values under key `k`.
pub open spec fn i32_list_spec(t: Seq<TomlEntry>, k: Seq<char>) -> Result<Seq<i32>, ErrorView> {
    match lookup(t, k) {
        None => Err(fail(ReasonView::MissingField(k))),
        Some(TomlValue::Array(a)) => if a@.len() == 0 {
            Err(under_key(k, fail(ReasonView::EmptyList)))
        } else {
            match i32_items(a@, a@.len() as int) {
                Ok(s) => Ok(s),
                Err(e) => Err(under_key(k, e)),
            }
        },
        Some(_) => Err(under_key(k, fail(ReasonView::Expected(ValueKind::Array)))),
    }
}

pub fn opt_key(t: &Vec<TomlEntry>, k: &str) -> (r: Result<Option<String>, DecodeError>)
    ensures
        match r {
            Ok(o) => opt_key_spec(t@, k@) == Ok::<_, ErrorView>(opt_str_view(o)),
            Err(e) => opt_key_spec(t@, k@) == Err::<Option<Seq<char>>, _>(e@),
        },
{
    match find_key(t, k) {
        None => Ok(None),
        Some(p) => match &t[p].value {
            TomlValue::Str(s) => Ok(Some(s.clone())),
            _ => Err(error_under_key(k, new_error(DecodeReason::Expected(ValueKind::String)))),
        },
    }
}

pub fn placeholder_key(t: &Vec<TomlEntry>, k: &str) -> (r: Result<Option<String>, DecodeError>)
    ensures
        match r {
            Ok(o) => placeholder_key_spec(t@, k@) == Ok::<_, ErrorView>(opt_str_view(o)),
            Err(e) => placeholder_key_spec(t@, k@) == Err::<Option<Seq<char>>, _>(e@),
        },
{
    match find_key(t, k) {
        None => Err(new_error(DecodeReason::MissingField(String::from_str(k)))),
        Some(p) => match &t[p].value {
            TomlValue::Str(s) => Ok(Some(s.clone())),
            TomlValue::Bool(_) => Ok(None),
            _ => Err(error_under_key(k, new_error(DecodeReason::Expected(ValueKind::KeyOrBool)))),
        },
    }
}

pub fn req_str(t: &Vec<TomlEntry>, k: &str) -> (r: Result<String, DecodeError>)
    ensures
        match r {
            Ok(s) => req_str_spec(t@, k@) == Ok::<_, ErrorView>(s@),
            Err(e) => req_str_spec(t@, k@) == Err::<Seq<char>, _>(e@),
        },
{
    match find_key(t, k) {
        None => Err(new_error(DecodeReason::MissingField(String::from_str(k)))),
        Some(p) => match &t[p].value {
            TomlValue::Str(s) => Ok(s.clone()),
            _ => Err(error_under_key(k, new_error(DecodeReason::Expected(ValueKind::String)))),
        },
    }
}

pub fn req_bool(t: &Vec<TomlEntry>, k: &str) -> (r: Result<bool, DecodeError>)
    ensures
        res_view(r) == req_bool_spec(t@, k@),
{
    match find_key(t, k) {
        None => Err(new_error(DecodeReason::MissingField(String::from_str(k)))),
        Some(p) => match &t[p].value {
            TomlValue::Bool(b) => Ok(*b),
            _ => Err(error_under_key(k, new_error(DecodeReason::Expected(ValueKind::Boolean)))),
        },
    }
}

pub fn opt_bool(t: &Vec<TomlEntry>, k: &str) -> (r: Result<bool, DecodeError>)
    ensures
        res_view(r) == opt_bool_spec(t@, k@),
{
    match find_key(t, k) {
        None => Ok(false),
        Some(p) => match &t[p].value {
            TomlValue::Bool(b) => Ok(*b),
            _ => Err(error_under_key(k, new_error(DecodeReason::Expected(ValueKind::Boolean)))),
        },
    }
}

fn number_value(v: &TomlValue) -> (r: Option<Number>)
    ensures
        r == number_of(*v),
{
    match v {
        TomlValue::Int(i) => Some(Number::Int(*i)),
        TomlValue::Float(b) => Some(Number::FloatBits(*b)),
        _ => None,
    }
}

pub fn req_number(t: &Vec<TomlEntry>, k: &str) -> (r: Result<Number, DecodeError>)
    ensures
        res_view(r) == req_number_spec(t@, k@),
{
    match find_key(t, k) {
        None => Err(new_error(DecodeReason::MissingField(String::from_str(k)))),
        Some(p) => match number_value(&t[p].value) {
            Some(n) => Ok(n),
            None => Err(error_under_key(k, new_error(DecodeReason::Expected(ValueKind::Number)))),
        },
    }
}

pub fn req_u32(t: &Vec<TomlEntry>, k: &str) -> (r: Result<u32, DecodeError>)
    ensures
        res_view(r) == req_u32_spec(t@, k@),
{
    match find_key(t, k) {
        None => Err(new_error(DecodeReason::MissingField(String::from_str(k)))),
        Some(p) => match &t[p].value {
            TomlValue::Int(i) => if 0 <= *i && *i <= u32::MAX as i64 {
                Ok(*i as u32)
            } else {
                Err(error_under_key(k, new_error(DecodeReason::OutOfRange)))
            },
            _ => Err(error_under_key(k, new_error(DecodeReason::Expected(ValueKind::Integer)))),
        },
    }
}

} // verus!

verus! {

pub open spec fn strs_view(v: Seq<String>) -> Seq<Seq<char>> {
    v.map_values(|s: String| s@)
}

pub fn req_str_list(t: &Vec<TomlEntry>, k: &str) -> (r: Result<Vec<String>, DecodeError>)
    ensures
        match r {
            Ok(v) => str_list_spec(t@, k@) == Ok::<_, ErrorView>(strs_view(v@)),
            Err(e) => str_list_spec(t@, k@) == Err::<Seq<Seq<char>>, _>(e@),
        },
{
    let p = match find_key(t, k) {
        None => { return Err(new_error(DecodeReason::MissingField(String::from_str(k)))); },
        Some(p) => p,
    };
    let a = match &t[p].value {
        TomlValue::Array(a) => a,
        _ => { return Err(error_under_key(k, new_error(DecodeReason::Expected(ValueKind::Array)))); },
    };
    let mut out: Vec<String> = Vec::new();
    assert(strs_view(out@) =~= seq![]);
    let mut i: usize = 0;
    while i < a.len()
        invariant
            i <= a@.len(),
            lookup(t@, k@) == Some(TomlValue::Array(*a)),
            str_items(a@, i as int) == Ok::<_, ErrorView>(strs_view(out@)),
        decreases a@.len() - i,
    {
        match &a[i] {
            TomlValue::Str(s) => {
                let ghost before = out@;
                out.push(s.clone());
                assert(strs_view(out@) =~= strs_view(before).push(s@));
            },
            _ => {
                let e = error_under_key(k, error_under(PathSegment::Index(i), new_error(DecodeReason::Expected(ValueKind::String))));
                proof {
                    lemma_str_items_err(a@, i + 1, a@.len() as int);
                }
                return Err(e);
            },
        }
        i = i + 1;
    }
    Ok(out)
}

pub fn req_number_list(t: &Vec<TomlEntry>, k: &str) -> (r: Result<Vec<Number>, DecodeError>)
    ensures
        match r {
            Ok(v) => number_list_spec(t@, k@) == Ok::<_, ErrorView>(v@),
            Err(e) => number_list_spec(t@, k@) == Err::<Seq<Number>, _>(e@),
        },
{
    let p = match find_key(t, k) {
        None => { return Err(new_error(DecodeReason::MissingField(String::from_str(k)))); },
        Some(p) => p,
    };
    let a = match &t[p].value {
        TomlValue::Array(a) => a,
        _ => { return Err(error_under_key(k, new_error(DecodeReason::Expected(ValueKind::Array)))); },
    };
    if a.len() == 0 {
        return Err(error_under_key(k, new_error(DecodeReason::EmptyList)));
    }
    let mut out: Vec<Number> = Vec::new();
    let mut i: usize = 0;
    while i < a.len()
        invariant
            i <= a@.len(),
            lookup(t@, k@) == Some(TomlValue::Array(*a)),
            a@.len() > 0,
            number_items(a@, i as int) == Ok::<_, ErrorView>(out@),
        decreases a@.len() - i,
    {
        match number_value(&a[i]) {
            Some(n) => {
                out.push(n);
            },
            None => {
                let e = error_under_key(k, error_under(PathSegment::Index(i), new_error(DecodeReason::Expected(ValueKind::Number))));
                proof {
                    lemma_number_items_err(a@, i + 1, a@.len() as int);
                }
                return Err(e);
            },
        }
        i = i + 1;
    }
    Ok(out)
}

pub fn req_i32_list(t: &Vec<TomlEntry>, k: &str) -> (r: Result<Vec<i32>, DecodeError>)
    ensures
        match r {
            Ok(v) => i32_list_spec(t@, k@) == Ok::<_, ErrorView>(v@),
            Err(e) => i32_list_spec(t@, k@) == Err::<Seq<i32>, _>(e@),
        },
{
    let p = match find_key(t, k) {
        None => { return Err(new_error(DecodeReason::MissingField(String::from_str(k)))); },
        Some(p) => p,
    };
    let a = match &t[p].value {
        TomlValue::Array(a) => a,
        _ => { return Err(error_under_key(k, new_error(DecodeReason::Expected(ValueKind::Array)))); },
    };
    if a.len() == 0 {
        return Err(error_under_key(k, new_error(DecodeReason::EmptyList)));
    }
    let mut out: Vec<i32> = Vec::new();
    let mut i: usize = 0;
    while i < a.len()
        invariant
            i <= a@.len(),
            lookup(t@, k@) == Some(TomlValue::Array(*a)),
            a@.len() > 0,
            i32_items(a@, i as int) == Ok::<_, ErrorView>(out@),
        decreases a@.len() - i,
    {
        match &a[i] {
            TomlValue::Int(v) => {
                if i32::MIN as i64 <= *v && *v <= i32::MAX as i64 {
                    out.push(*v as i32);
                } else {
                    let e = error_under_key(k, error_under(PathSegment::Index(i), new_error(DecodeReason::OutOfRange)));
                    proof {
                        lemma_i32_items_err(a@, i + 1, a@.len() as int);
                    }
                    return Err(e);
                }
            },
            _ => {
                let e = error_under_key(k, error_under(PathSegment::Index(i), new_error(DecodeReason::Expected(ValueKind::Integer))));
                proof {
                    lemma_i32_items_err(a@, i + 1, a@.len() as int);
                }
                return Err(e);
            },
        }
        i = i + 1;
    }
    Ok(out)
}

} // verus!
