//! Benchmark results laid out for output.
//!
//! Results are kept by test and, below each test, by implementation. Output
//! walks the tests in the order of their names and, within a test, the
//! implementations in the order of theirs; the first implementation of a test
//! is the reference that the others are compared with. This module decides
//! which rows a format shows, in which order, and which of their derived
//! figures are defined. Measurements are IEEE 754 binary64 values held as
//! their bit patterns: the arithmetic on them and their rendering as text are
//! the host's.

use vstd::prelude::*;

verus! {

/// The errors of reporting.
#[derive(Clone, Copy, Debug, PartialEq, Eq, Structural)]
pub enum BenchError {
    /// The output format is not known.
    Unsupported,
    /// The output could not be written.
    Io,
}

/// An output format.
#[derive(Clone, Copy, Debug, PartialEq, Eq, Structural)]
pub enum Format {
    Text,
    CSV,
    JSON,
}

/// The table for a terminal.
pub struct Text;

/// Tab-separated lines.
pub struct CSV;

/// The JSON document.
pub struct JSON;

impl Format {
    /// The format of that name: `Text`, `CSV` or `JSON`, spelled exactly so.
    pub fn parse(format_str: &str) -> (r: Result<Format, BenchError>)
        ensures
            format_str@ == "Text"@ ==> r == Ok::<Format, BenchError>(Format::Text),
            format_str@ == "CSV"@ ==> r == Ok::<Format, BenchError>(Format::CSV),
            format_str@ == "JSON"@ ==> r == Ok::<Format, BenchError>(Format::JSON),
            format_str@ != "Text"@ && format_str@ != "CSV"@ && format_str@ != "JSON"@ ==> r
                == Err::<Format, BenchError>(BenchError::Unsupported),
    {
        proof {
            reveal_strlit("Text");
            reveal_strlit("CSV");
            reveal_strlit("JSON");
            assert("Text"@.len() == 4 && "CSV"@.len() == 3 && "JSON"@.len() == 4);
            assert("Text"@[0] == 'T' && "JSON"@[0] == 'J');
        }
        let name = format_str.to_owned();
        if name == "Text".to_owned() {
            Ok(Format::Text)
        } else if name == "CSV".to_owned() {
            Ok(Format::CSV)
        } else if name == "JSON".to_owned() {
            Ok(Format::JSON)
        } else {
            Err(BenchError::Unsupported)
        }
    }
}

/// The figures of one series of measurements, each a binary64 bit pattern.
#[derive(Clone, Copy, Debug, PartialEq, Eq, Structural)]
pub struct Summary {
    pub mean: u64,
    pub median: u64,
    pub min: u64,
    pub max: u64,
    pub std_dev: u64,
}

/// The figures of one function within a test.
#[derive(Clone, Debug, PartialEq, Eq)]
pub struct BodySummary {
    pub name: String,
    pub summary: Summary,
}

/// The result of one test under one implementation.
#[derive(Clone, Debug, PartialEq, Eq)]
pub struct AnonymousTestResult {
    pub grand_summary: Summary,
    pub bodies_summary: Vec<BodySummary>,
    /// The sum of the medians of `bodies_summary`, as the host has added them.
    pub bodies_median_sum: u64,
}

/// A named result: one implementation's run of a test.
#[derive(Clone, Debug, PartialEq, Eq)]
pub struct Implementation {
    pub name: String,
    pub result: AnonymousTestResult,
}

/// A named test with the results of its implementations.
#[derive(Clone, Debug, PartialEq, Eq)]
pub struct TestSuite {
    pub name: String,
    pub implementations: Vec<Implementation>,
}

/// A column of a header.
#[derive(Clone, Copy, Debug, PartialEq, Eq, Structural)]
pub enum Column {
    Test,
    Implementation,
    Ratio,
    Median,
    RSD,
    Function,
    Percentage,
}

/// A row of output. Tests, implementations and functions are named by their
/// places in the results that the layout was made from.
#[derive(Clone, Copy, Debug, PartialEq, Eq)]
pub enum Row {
    /// The grand summary of an implementation. `reference` is the
    /// implementation whose mean the ratio divides by, where that mean is
    /// positive; without one the ratio is zero. `rsd` says whether the mean is
    /// positive, so that the relative standard deviation is a quotient and
    /// not zero.
    Result { test: usize, implementation: usize, reference: Option<usize>, rsd: bool },
    /// One function of an implementation. `rsd` is as above, for the
    /// function's own mean; `share` says whether the sum of the medians is
    /// positive, so that the function's percentage of it is a quotient and
    /// not zero.
    Body { test: usize, implementation: usize, body: usize, rsd: bool, share: bool },
}

/// What a format puts out: a header and rows.
#[derive(Debug, PartialEq, Eq)]
pub struct Layout {
    pub header: Vec<Column>,
    pub rows: Vec<Row>,
}

/// Whether a binary64 bit pattern is a number greater than zero: the sign bit
/// is clear, the value is not zero, and it is no NaN.
pub open spec fn positive(bits: u64) -> bool {
    0 < bits <= 0x7FF0_0000_0000_0000u64
}

/// Whether a measurement is greater than zero.
pub fn is_positive(bits: u64) -> (r: bool)
    ensures
        r == positive(bits),
{
    0 < bits && bits <= 0x7FF0_0000_0000_0000u64
}

/// The order of names: that of their characters, the first difference
/// deciding, a prefix before what it is a prefix of.
pub open spec fn name_le(a: Seq<char>, b: Seq<char>) -> bool
    decreases a.len(),
{
    if a.len() == 0 {
        true
    } else if b.len() == 0 {
        false
    } else if a[0] != b[0] {
        (a[0] as u32) < (b[0] as u32)
    } else {
        name_le(a.skip(1), b.skip(1))
    }
}

/// Whether `order` lists each place of `names` once, in the order of the names.
pub open spec fn is_sorted_order(order: Seq<usize>, names: Seq<Seq<char>>) -> bool {
    &&& order.len() == names.len()
    &&& forall|k: int| 0 <= k < order.len() ==> 0 <= #[trigger] order[k] < names.len()
    &&& order.to_multiset() == Seq::new(names.len(), |k: int| k as usize).to_multiset()
    &&& forall|i: int, j: int|
        0 <= i < j < order.len() ==> name_le(
            #[trigger] names[order[i] as int],
            #[trigger] names[order[j] as int],
        )
}

/// The names of a sequence of strings.
pub open spec fn names_of(names: Seq<String>) -> Seq<Seq<char>> {
    names.map_values(|s: String| s@)
}

/// The name at a place.
fn name_at(names: &Vec<String>, place: usize) -> (name: String)
    requires
        place < names@.len(),
    ensures
        name == names@[place as int],
{
    names[place].clone()
}

/// `slice::sort_unstable_by_key`, on places into `names` with the name as the
/// key. Claimed of it: the places afterwards are those from before, each as
/// often as before, and they stand in the order of their names, which for
/// strings is the order of their bytes and so of their characters.
#[verifier::external_body]
fn sort_by_name(order: &mut Vec<usize>, names: &Vec<String>)
    requires
        forall|k: int| 0 <= k < old(order)@.len() ==> old(order)@[k] < names@.len(),
    ensures
        final(order)@.to_multiset() == old(order)@.to_multiset(),
        forall|i: int, j: int|
            0 <= i < j < final(order)@.len() ==> name_le(
                #[trigger] names@[final(order)@[i] as int]@,
                #[trigger] names@[final(order)@[j] as int]@,
            ),
{
    order.sort_unstable_by_key(|place| name_at(names, *place));
}

/// The places of `names` in the order of the names.
pub fn sorted_order(names: &Vec<String>) -> (order: Vec<usize>)
    ensures
        is_sorted_order(order@, names_of(names@)),
{
    let mut order: Vec<usize> = Vec::new();
    let mut k: usize = 0;
    while k < names.len()
        invariant
            k <= names@.len(),
            order@ == Seq::new(k as nat, |i: int| i as usize),
        decreases names@.len() - k,
    {
        order.push(k);
        assert(order@ =~= Seq::new((k + 1) as nat, |i: int| i as usize));
        k = k + 1;
    }
    let ghost identity = order@;
    sort_by_name(&mut order, names);
    proof {
        broadcast use vstd::seq_lib::group_to_multiset_ensures;

        assert(order@.len() == order@.to_multiset().len());
        assert forall|i: int| 0 <= i < order@.len() implies 0 <= #[trigger] order@[i]
            < names_of(names@).len() by {
            assert(order@.contains(order@[i]));
            assert(order@.to_multiset().count(order@[i]) > 0);
            assert(identity.contains(order@[i]));
        }
        assert forall|i: int, j: int| 0 <= i < j < order@.len() implies name_le(
            #[trigger] names_of(names@)[order@[i] as int],
            #[trigger] names_of(names@)[order@[j] as int],
        ) by {
            assert(name_le(names@[order@[i] as int]@, names@[order@[j] as int]@));
        }
    }
    order
}

/// The columns that a format heads its rows with.
pub open spec fn header_of(format: Format, breakdown: bool) -> Seq<Column> {
    match format {
        Format::Text => if breakdown {
            seq![
                Column::Test,
                Column::Implementation,
                Column::Ratio,
                Column::Median,
                Column::RSD,
                Column::Function,
                Column::Percentage,
            ]
        } else {
            seq![Column::Test, Column::Implementation, Column::Ratio, Column::Median, Column::RSD]
        },
        Format::CSV => if breakdown {
            seq![
                Column::Test,
                Column::Function,
                Column::Implementation,
                Column::Median,
                Column::RSD,
                Column::Percentage,
            ]
        } else {
            seq![Column::Test, Column::Implementation, Column::Ratio, Column::Median, Column::RSD]
        },
        Format::JSON => seq![],
    }
}

/// Whether a format shows the grand summary of each implementation: all do
/// but the CSV broken down by function.
pub open spec fn shows_results(format: Format, breakdown: bool) -> bool {
    match format {
        Format::CSV => !breakdown,
        _ => true,
    }
}

/// Whether a format shows the functions of a result. The text table and the
/// JSON document show them where there are more than one, the table only if
/// their medians add up to more than zero; the CSV shows them when it is
/// broken down.
pub open spec fn shows_bodies(format: Format, breakdown: bool, result: AnonymousTestResult) -> bool {
    match format {
        Format::Text => positive(result.bodies_median_sum) && result.bodies_summary@.len() > 1,
        Format::CSV => breakdown,
        Format::JSON => result.bodies_summary@.len() > 1,
    }
}

/// The row of the function at place `body` of a result.
pub open spec fn body_row(
    test: usize,
    implementation: usize,
    result: AnonymousTestResult,
    body: usize,
) -> Row {
    Row::Body {
        test,
        implementation,
        body,
        rsd: positive(result.bodies_summary@[body as int].summary.mean),
        share: positive(result.bodies_median_sum),
    }
}

/// The rows of the first `count` functions of a result.
pub open spec fn body_rows(
    test: usize,
    implementation: usize,
    result: AnonymousTestResult,
    count: nat,
) -> Seq<Row>
    decreases count,
{
    if count == 0 {
        seq![]
    } else {
        body_rows(test, implementation, result, (count - 1) as nat).push(
            body_row(test, implementation, result, (count - 1) as usize),
        )
    }
}

/// The rows of one result: its grand summary where the format shows it, then
/// its functions where the format shows them.
pub open spec fn result_rows(
    format: Format,
    breakdown: bool,
    test: usize,
    implementation: usize,
    reference: Option<usize>,
    result: AnonymousTestResult,
) -> Seq<Row> {
    (if shows_results(format, breakdown) {
        seq![
            Row::Result {
                test,
                implementation,
                reference,
                rsd: positive(result.grand_summary.mean),
            },
        ]
    } else {
        seq![]
    }) + (if shows_bodies(format, breakdown, result) {
        body_rows(test, implementation, result, result.bodies_summary@.len())
    } else {
        seq![]
    })
}

/// The implementation that the ratios of a test divide by: the first in
/// order, if its mean is positive.
pub open spec fn reference_of(suite: TestSuite, order: Seq<usize>) -> Option<usize> {
    if order.len() > 0 && positive(
        suite.implementations@[order[0] as int].result.grand_summary.mean,
    ) {
        Some(order[0])
    } else {
        None
    }
}

/// The rows of the first `count` implementations of a test, in `order`.
pub open spec fn suite_rows(
    format: Format,
    breakdown: bool,
    test: usize,
    suite: TestSuite,
    order: Seq<usize>,
    count: nat,
) -> Seq<Row>
    decreases count,
{
    if count == 0 {
        seq![]
    } else {
        suite_rows(format, breakdown, test, suite, order, (count - 1) as nat) + result_rows(
            format,
            breakdown,
            test,
            order[count - 1],
            reference_of(suite, order),
            suite.implementations@[order[count - 1] as int].result,
        )
    }
}

/// Whether a row belongs to the result at the given places, with `bodies`
/// functions.
pub open spec fn row_within(
    row: Row,
    test: usize,
    implementation: usize,
    reference: Option<usize>,
    bodies: nat,
) -> bool {
    match row {
        Row::Result { test: t, implementation: i, reference: r, .. } => t == test && i
            == implementation && r == reference,
        Row::Body { test: t, implementation: i, body, .. } => t == test && i == implementation
            && body < bodies,
    }
}

/// Whether the places that a row names exist in the results.
pub open spec fn row_in_range(suites: Seq<TestSuite>, row: Row) -> bool {
    match row {
        Row::Result { test, implementation, reference, .. } => {
            &&& test < suites.len()
            &&& implementation < suites[test as int].implementations@.len()
            &&& reference is Some ==> reference->Some_0 < suites[test as int].implementations@.len()
        },
        Row::Body { test, implementation, body, .. } => {
            &&& test < suites.len()
            &&& implementation < suites[test as int].implementations@.len()
            &&& body
                < suites[test as int].implementations@[implementation as int].result.bodies_summary@.len()
        },
    }
}

/// One test of the JSON document, by its place in the results.
#[derive(Clone, Debug, PartialEq, Eq)]
pub struct JsonTest {
    pub test: usize,
    /// The places of the test's implementations, in the order of their names,
    /// each with whether the document lists its functions.
    pub implementations: Vec<(usize, bool)>,
}

/// The implementations of a test as the JSON document lists them: in
/// `order`, the functions of a result listed where there are more than one.
pub open spec fn json_implementations(suite: TestSuite, order: Seq<usize>) -> Seq<(usize, bool)> {
    Seq::new(
        order.len(),
        |k: int|
            (order[k], suite.implementations@[order[k] as int].result.bodies_summary@.len() > 1),
    )
}

/// Results with the orders in which they are put out.
pub ghost struct OutView {
    /// The tests, as they were given.
    pub suites: Seq<TestSuite>,
    /// The places of the tests, in the order of their names.
    pub test_order: Seq<usize>,
    /// For each test, the places of its implementations in the order of
    /// their names.
    pub implementation_orders: Seq<Seq<usize>>,
}

/// The names of the tests.
pub open spec fn suite_names(suites: Seq<TestSuite>) -> Seq<Seq<char>> {
    suites.map_values(|suite: TestSuite| suite.name@)
}

/// The names of the implementations of a test.
pub open spec fn implementation_names(suite: TestSuite) -> Seq<Seq<char>> {
    suite.implementations@.map_values(|implementation: Implementation| implementation.name@)
}

/// Whether no name stands at two places.
pub open spec fn distinct(names: Seq<Seq<char>>) -> bool {
    forall|i: int, j: int| 0 <= i < j < names.len() ==> names[i] != names[j]
}

/// Whether results name each test once and, within a test, each
/// implementation once.
pub open spec fn names_distinct(suites: Seq<TestSuite>) -> bool {
    &&& distinct(suite_names(suites))
    &&& forall|t: int| 0 <= t < suites.len() ==> distinct(implementation_names(#[trigger] suites[t]))
}

/// Where no name occurs twice, the order of output is strict: of two places
/// in it, the earlier holds another name than the later, and one that stands
/// before it in the order of names.
pub proof fn law_sorted_order_is_strict(
    order: Seq<usize>,
    names: Seq<Seq<char>>,
    i: int,
    j: int,
)
    requires
        is_sorted_order(order, names),
        distinct(names),
        names.len() <= usize::MAX,
        0 <= i < j < order.len(),
    ensures
        order[i] != order[j],
        names[order[i] as int] != names[order[j] as int],
        name_le(names[order[i] as int], names[order[j] as int]),
{
    let identity = Seq::new(names.len(), |k: int| k as usize);
    assert(identity.no_duplicates());
    identity.lemma_multiset_has_no_duplicates();
    order.lemma_multiset_has_no_duplicates_conv();
    if order[i] < order[j] {
        assert(names[order[i] as int] != names[order[j] as int]);
    } else {
        assert(names[order[j] as int] != names[order[i] as int]);
    }
}

impl OutView {
    /// No name occurs twice where it names something, and the orders are
    /// those of the names.
    pub open spec fn wf(self) -> bool {
        &&& names_distinct(self.suites)
        &&& is_sorted_order(self.test_order, suite_names(self.suites))
        &&& self.implementation_orders.len() == self.suites.len()
        &&& forall|t: int|
            0 <= t < self.suites.len() ==> is_sorted_order(
                #[trigger] self.implementation_orders[t],
                implementation_names(self.suites[t]),
            )
    }

    /// The rows of the first `count` tests in order.
    pub open spec fn rows(self, format: Format, breakdown: bool, count: nat) -> Seq<Row>
        decreases count,
    {
        if count == 0 {
            seq![]
        } else {
            let test = self.test_order[count - 1];
            self.rows(format, breakdown, (count - 1) as nat) + suite_rows(
                format,
                breakdown,
                test,
                self.suites[test as int],
                self.implementation_orders[test as int],
                self.implementation_orders[test as int].len(),
            )
        }
    }

    /// Whether `document` lists every test once, in the order of the names,
    /// a test without implementations too, and below each test its
    /// implementations in the order of theirs.
    pub open spec fn is_document(self, document: Seq<JsonTest>) -> bool {
        &&& document.len() == self.test_order.len()
        &&& forall|k: int|
            0 <= k < document.len() ==> {
                &&& (#[trigger] document[k]).test == self.test_order[k]
                &&& document[k].implementations@ == json_implementations(
                    self.suites[self.test_order[k] as int],
                    self.implementation_orders[self.test_order[k] as int],
                )
            }
    }

    /// All rows of a format.
    pub open spec fn layout(self, format: Format, breakdown: bool) -> Seq<Row> {
        self.rows(format, breakdown, self.test_order.len())
    }
}

/// The results of a run of benchmarks, ready for output.
pub struct Out {
    test_suites_results: Vec<TestSuite>,
    test_order: Vec<usize>,
    implementation_orders: Vec<Vec<usize>>,
}

/// A way of laying out results.
pub trait Serializable {
    /// The format that is laid out.
    spec fn format(&self) -> Format;

    /// The header and the rows of the results in this format.
    fn out(&self, results: &Out, breakdown: bool) -> (r: Layout)
        requires
            results@.wf(),
        ensures
            r.header@ == header_of(self.format(), breakdown),
            r.rows@ == results@.layout(self.format(), breakdown),
            forall|i: int|
                0 <= i < r.rows@.len() ==> row_in_range(results@.suites, #[trigger] r.rows@[i]),
    ;
}

impl View for Out {
    type V = OutView;

    closed spec fn view(&self) -> OutView {
        OutView {
            suites: self.test_suites_results@,
            test_order: self.test_order@,
            implementation_orders: self.implementation_orders@.map_values(|order: Vec<usize>| order@),
        }
    }
}

/// The names of the tests, copied.
fn names_of_suites(suites: &Vec<TestSuite>) -> (names: Vec<String>)
    ensures
        names_of(names@) == suite_names(suites@),
{
    let mut names: Vec<String> = Vec::new();
    let mut k: usize = 0;
    while k < suites.len()
        invariant
            k <= suites@.len(),
            names@.len() == k,
            forall|i: int| 0 <= i < k ==> (#[trigger] names@[i])@ == suites@[i].name@,
        decreases suites@.len() - k,
    {
        names.push(suites[k].name.clone());
        k = k + 1;
    }
    assert(names_of(names@) =~= suite_names(suites@));
    names
}

/// The names of the implementations of a test, copied.
fn names_of_implementations(suite: &TestSuite) -> (names: Vec<String>)
    ensures
        names_of(names@) == implementation_names(*suite),
{
    let mut names: Vec<String> = Vec::new();
    let mut k: usize = 0;
    while k < suite.implementations.len()
        invariant
            k <= suite.implementations@.len(),
            names@.len() == k,
            forall|i: int| 0 <= i < k ==> (#[trigger] names@[i])@ == suite.implementations@[i].name@,
        decreases suite.implementations@.len() - k,
    {
        names.push(suite.implementations[k].name.clone());
        k = k + 1;
    }
    assert(names_of(names@) =~= implementation_names(*suite));
    names
}

/// Appends the rows of one result.
fn push_result_rows(
    rows: &mut Vec<Row>,
    format: Format,
    breakdown: bool,
    test: usize,
    implementation: usize,
    reference: Option<usize>,
    result: &AnonymousTestResult,
)
    ensures
        final(rows)@ == old(rows)@ + result_rows(
            format,
            breakdown,
            test,
            implementation,
            reference,
            *result,
        ),
        forall|i: int|
            old(rows)@.len() <= i < final(rows)@.len() ==> row_within(
                #[trigger] final(rows)@[i],
                test,
                implementation,
                reference,
                result.bodies_summary@.len(),
            ),
{
    let results: bool = match format {
        Format::CSV => !breakdown,
        _ => true,
    };
    if results {
        rows.push(
            Row::Result {
                test,
                implementation,
                reference,
                rsd: is_positive(result.grand_summary.mean),
            },
        );
    }
    let ghost head = rows@;
    let share: bool = is_positive(result.bodies_median_sum);
    let bodies: bool = match format {
        Format::Text => share && result.bodies_summary.len() > 1,
        Format::CSV => breakdown,
        Format::JSON => result.bodies_summary.len() > 1,
    };
    if bodies {
        let mut k: usize = 0;
        while k < result.bodies_summary.len()
            invariant
                k <= result.bodies_summary@.len(),
                share == positive(result.bodies_median_sum),
                rows@ == head + body_rows(test, implementation, *result, k as nat),
                old(rows)@.len() <= head.len() <= rows@.len(),
                forall|i: int|
                    old(rows)@.len() <= i < rows@.len() ==> row_within(
                        #[trigger] rows@[i],
                        test,
                        implementation,
                        reference,
                        result.bodies_summary@.len(),
                    ),
            decreases result.bodies_summary@.len() - k,
        {
            rows.push(
                Row::Body {
                    test,
                    implementation,
                    body: k,
                    rsd: is_positive(result.bodies_summary[k].summary.mean),
                    share,
                },
            );
            k = k + 1;
            assert(rows@ =~= head + body_rows(test, implementation, *result, k as nat));
        }
    }
    assert(rows@ =~= old(rows)@ + result_rows(
        format,
        breakdown,
        test,
        implementation,
        reference,
        *result,
    ));
}

impl Out {
    /// Takes the results and settles the order of their output. Each test is
    /// named once, and so is each implementation within its test.
    pub fn new(test_suites_results: Vec<TestSuite>) -> (r: Out)
        requires
            names_distinct(test_suites_results@),
        ensures
            r@.suites == test_suites_results@,
            r@.wf(),
    {
        let names = names_of_suites(&test_suites_results);
        let test_order = sorted_order(&names);
        let mut implementation_orders: Vec<Vec<usize>> = Vec::new();
        let mut t: usize = 0;
        while t < test_suites_results.len()
            invariant
                t <= test_suites_results@.len(),
                implementation_orders@.len() == t,
                forall|i: int|
                    0 <= i < t ==> is_sorted_order(
                        (#[trigger] implementation_orders@[i])@,
                        implementation_names(test_suites_results@[i]),
                    ),
            decreases test_suites_results@.len() - t,
        {
            let names = names_of_implementations(&test_suites_results[t]);
            implementation_orders.push(sorted_order(&names));
            t = t + 1;
        }
        Out { test_suites_results, test_order, implementation_orders }
    }

    /// The tests, at the places by which rows name them.
    pub fn test_suites(&self) -> (r: &Vec<TestSuite>)
        ensures
            r@ == self@.suites,
    {
        &self.test_suites_results
    }

    /// Appends the rows of the test at place `test`.
    fn push_suite_rows(&self, rows: &mut Vec<Row>, format: Format, breakdown: bool, test: usize)
        requires
            self@.wf(),
            test < self@.suites.len(),
        ensures
            final(rows)@ == old(rows)@ + suite_rows(
                format,
                breakdown,
                test,
                self@.suites[test as int],
                self@.implementation_orders[test as int],
                self@.implementation_orders[test as int].len(),
            ),
            forall|i: int|
                old(rows)@.len() <= i < final(rows)@.len() ==> row_in_range(
                    self@.suites,
                    #[trigger] final(rows)@[i],
                ),
    {
        let suite = &self.test_suites_results[test];
        let order = &self.implementation_orders[test];
        assert(order@ == self@.implementation_orders[test as int]);
        assert(is_sorted_order(order@, implementation_names(*suite)));
        let reference: Option<usize> = if order.len() > 0 && is_positive(
            suite.implementations[order[0]].result.grand_summary.mean,
        ) {
            Some(order[0])
        } else {
            None
        };
        let mut k: usize = 0;
        while k < order.len()
            invariant
                k <= order@.len(),
                is_sorted_order(order@, implementation_names(*suite)),
                reference == reference_of(*suite, order@),
                rows@ == old(rows)@ + suite_rows(format, breakdown, test, *suite, order@, k as nat),
                test < self@.suites.len(),
                *suite == self@.suites[test as int],
                forall|i: int|
                    old(rows)@.len() <= i < rows@.len() ==> row_in_range(
                        self@.suites,
                        #[trigger] rows@[i],
                    ),
            decreases order@.len() - k,
        {
            let implementation = order[k];
            push_result_rows(
                rows,
                format,
                breakdown,
                test,
                implementation,
                reference,
                &suite.implementations[implementation].result,
            );
            k = k + 1;
            assert(rows@ =~= old(rows)@ + suite_rows(
                format,
                breakdown,
                test,
                *suite,
                order@,
                k as nat,
            ));
        }
    }

    /// The rows of a format.
    fn rows(&self, format: Format, breakdown: bool) -> (rows: Vec<Row>)
        requires
            self@.wf(),
        ensures
            rows@ == self@.layout(format, breakdown),
            forall|i: int| 0 <= i < rows@.len() ==> row_in_range(self@.suites, #[trigger] rows@[i]),
    {
        let mut rows: Vec<Row> = Vec::new();
        let mut k: usize = 0;
        while k < self.test_order.len()
            invariant
                self@.wf(),
                k <= self.test_order@.len(),
                self.test_order@ == self@.test_order,
                rows@ == self@.rows(format, breakdown, k as nat),
                forall|i: int|
                    0 <= i < rows@.len() ==> row_in_range(self@.suites, #[trigger] rows@[i]),
            decreases self.test_order@.len() - k,
        {
            let test = self.test_order[k];
            self.push_suite_rows(&mut rows, format, breakdown, test);
            k = k + 1;
            assert(rows@ =~= self@.rows(format, breakdown, k as nat));
        }
        rows
    }

    /// The header of a format.
    fn header(format: Format, breakdown: bool) -> (header: Vec<Column>)
        ensures
            header@ == header_of(format, breakdown),
    {
        let mut header: Vec<Column> = Vec::new();
        match format {
            Format::Text => {
                header.push(Column::Test);
                header.push(Column::Implementation);
                header.push(Column::Ratio);
                header.push(Column::Median);
                header.push(Column::RSD);
                if breakdown {
                    header.push(Column::Function);
                    header.push(Column::Percentage);
                }
            },
            Format::CSV => {
                header.push(Column::Test);
                if breakdown {
                    header.push(Column::Function);
                    header.push(Column::Implementation);
                    header.push(Column::Median);
                    header.push(Column::RSD);
                    header.push(Column::Percentage);
                } else {
                    header.push(Column::Implementation);
                    header.push(Column::Ratio);
                    header.push(Column::Median);
                    header.push(Column::RSD);
                }
            },
            Format::JSON => {},
        }
        assert(header@ =~= header_of(format, breakdown));
        header
    }

    /// Lays the results out in the given format.
    pub fn out(&self, format: Format, breakdown: bool) -> (r: Layout)
        requires
            self@.wf(),
        ensures
            r.header@ == header_of(format, breakdown),
            r.rows@ == self@.layout(format, breakdown),
            forall|i: int|
                0 <= i < r.rows@.len() ==> row_in_range(self@.suites, #[trigger] r.rows@[i]),
    {
        match format {
            Format::Text => Text.out(self, breakdown),
            Format::CSV => CSV.out(self, breakdown),
            Format::JSON => JSON.out(self, breakdown),
        }
    }
}

impl Serializable for Text {
    open spec fn format(&self) -> Format {
        Format::Text
    }

    fn out(&self, results: &Out, breakdown: bool) -> (r: Layout) {
        Layout {
            header: Out::header(Format::Text, breakdown),
            rows: results.rows(Format::Text, breakdown),
        }
    }
}

impl Serializable for CSV {
    open spec fn format(&self) -> Format {
        Format::CSV
    }

    fn out(&self, results: &Out, breakdown: bool) -> (r: Layout) {
        Layout {
            header: Out::header(Format::CSV, breakdown),
            rows: results.rows(Format::CSV, breakdown),
        }
    }
}

impl JSON {
    /// The tests of the JSON document with their implementations.
    pub fn document(&self, results: &Out) -> (r: Vec<JsonTest>)
        requires
            results@.wf(),
        ensures
            results@.is_document(r@),
    {
        let mut document: Vec<JsonTest> = Vec::new();
        let mut k: usize = 0;
        while k < results.test_order.len()
            invariant
                results@.wf(),
                k <= results.test_order@.len(),
                results.test_order@ == results@.test_order,
                document@.len() == k,
                forall|i: int|
                    0 <= i < k ==> {
                        &&& (#[trigger] document@[i]).test == results@.test_order[i]
                        &&& document@[i].implementations@ == json_implementations(
                            results@.suites[results@.test_order[i] as int],
                            results@.implementation_orders[results@.test_order[i] as int],
                        )
                    },
            decreases results.test_order@.len() - k,
        {
            let test = results.test_order[k];
            let suite = &results.test_suites_results[test];
            let order = &results.implementation_orders[test];
            assert(order@ == results@.implementation_orders[test as int]);
            assert(is_sorted_order(order@, implementation_names(*suite)));
            let mut implementations: Vec<(usize, bool)> = Vec::new();
            let mut j: usize = 0;
            while j < order.len()
                invariant
                    j <= order@.len(),
                    is_sorted_order(order@, implementation_names(*suite)),
                    implementations@.len() == j,
                    forall|i: int|
                        0 <= i < j ==> #[trigger] implementations@[i] == json_implementations(
                            *suite,
                            order@,
                        )[i],
                decreases order@.len() - j,
            {
                let place = order[j];
                implementations.push(
                    (place, suite.implementations[place].result.bodies_summary.len() > 1),
                );
                j = j + 1;
            }
            assert(implementations@ =~= json_implementations(*suite, order@));
            document.push(JsonTest { test, implementations });
            k = k + 1;
        }
        document
    }
}

impl Serializable for JSON {
    open spec fn format(&self) -> Format {
        Format::JSON
    }

    fn out(&self, results: &Out, breakdown: bool) -> (r: Layout) {
        Layout {
            header: Out::header(Format::JSON, breakdown),
            rows: results.rows(Format::JSON, breakdown),
        }
    }
}

} // verus!
