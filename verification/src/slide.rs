//! The slides of a session, each as a state machine that is fed the events
//! of its phase one by one. Lengths and positions are in tenths of a screen
//! unit, times in milliseconds since the slide began.

use vstd::prelude::*;
use rand::Rng;
use crate::msg;
use crate::msg::InputType;
use crate::msg::Message;
use crate::msg::SenselMessage;
use crate::world::number_text;
use crate::world::Contacts;
use crate::world::World;

verus! {

//-----------------------------------------------------------------------------
// Utils
//-----------------------------------------------------------------------------

/// An input clamped to its range.
pub open spec fn clamped(input_start: int, input_end: int, input: int) -> int {
    if input < input_start {
        input_start
    } else if input > input_end {
        input_end
    } else {
        input
    }
}

/// The linear map of an input range onto an output range, in tenths: the
/// input is clamped to its range, the mapped distance is rounded to the
/// nearest whole unit, a half upward, and the result is kept within the
/// output range. An empty input range maps to the start.
pub open spec fn mapped(
    output_start: int,
    output_end: int,
    input_start: int,
    input_end: int,
    input: int,
) -> int {
    if input_start < input_end && output_start <= output_end {
        let rounded = output_start + 10 * ((2 * (output_end - output_start) * (clamped(
            input_start,
            input_end,
            input,
        ) - input_start) + 10 * (input_end - input_start)) / (20 * (input_end - input_start)));
        if rounded > output_end {
            output_end
        } else {
            rounded
        }
    } else {
        output_start
    }
}

/// The mapping stays within the output range.
pub proof fn mapped_stays_in_range(os: int, oe: int, is: int, ie: int, input: int)
    requires
        os <= oe,
    ensures
        os <= mapped(os, oe, is, ie, input) <= oe,
{
    if is < ie {
        let c = clamped(is, ie, input) - is;
        let d = ie - is;
        let w = oe - os;
        assert(0 <= (2 * w * c + 10 * d) / (20 * d)) by (nonlinear_arith)
            requires
                0 <= c,
                0 < d,
                0 <= w,
        ;
    }
}

/// Maps an input linearly from its range onto the output range, all in
/// tenths.
pub fn range(output_start: i32, output_end: i32, input_start: i64, input_end: i64, input: i64) -> (r:
    i64)
    ensures
        r == mapped(
            output_start as int,
            output_end as int,
            input_start as int,
            input_end as int,
            input as int,
        ),
        output_start <= output_end ==> output_start <= r <= output_end,
{
    if input_start < input_end && output_start <= output_end {
        let at: i64 = if input < input_start {
            input_start
        } else if input > input_end {
            input_end
        } else {
            input
        };
        let width: i128 = output_end as i128 - output_start as i128;
        let offset: i128 = at as i128 - input_start as i128;
        let span: i128 = input_end as i128 - input_start as i128;
        assert(0 <= 2 * width * offset <= 2 * 0x1_0000_0000 * 0x1_0000_0000_0000_0000)
            by (nonlinear_arith)
            requires
                0 <= width <= 0x1_0000_0000,
                0 <= offset <= 0x1_0000_0000_0000_0000,
        ;
        let doubled: i128 = 2 * width * offset + 10 * span;
        let divisor: i128 = 20 * span;
        assert(0 <= (doubled as int) / (divisor as int) <= doubled) by (nonlinear_arith)
            requires
                0 <= doubled,
                0 < divisor,
        ;
        let units: i128 = doubled / divisor;
        let rounded: i128 = output_start as i128 + 10 * units;
        if rounded > output_end as i128 {
            output_end as i64
        } else {
            rounded as i64
        }
    } else {
        output_start as i64
    }
}

/// Draws a number with `rand::Rng::gen_range` on the thread's generator: any
/// number from `low` up to, and without, `high`.
#[verifier::external_body]
fn random_between(low: i64, high: i64) -> (r: i64)
    requires
        low < high,
    ensures
        low <= r < high,
{
    rand::thread_rng().gen_range(low, high)
}

/// Whether a slide that runs for `duration` seconds has run out at `now`.
pub open spec fn run_out(duration: u64, now: u64) -> bool {
    now / 1000 >= duration
}

/// The views of a sequence of traces.
pub open spec fn traces(closed: Seq<Contacts>) -> Seq<Seq<(u128, u32, u32, u32)>> {
    closed.map_values(|t: Contacts| t@)
}

//-----------------------------------------------------------------------------
// SLIDES
//-----------------------------------------------------------------------------

/// A phase of the session, shown by the client on a page of its own.
pub trait Slide {
    /// The number of the client's page for this slide.
    spec fn number(&self) -> u32;

    fn page(&self) -> (r: u32)
        ensures
            r == self.number(),
    ;
}

//-----------------------------------------------------------------------------
// Frontmatter
//-----------------------------------------------------------------------------

/// Front page of the survey.
pub struct FrontMatter {}

impl FrontMatter {
    pub fn new() -> Self {
        FrontMatter {  }
    }

    /// The messages that open the slide.
    pub fn opening(&self) -> (r: Vec<Message>)
        ensures
            r@.len() == 1,
            msg::is_goto(r@[0], 0),
    {
        let mut out: Vec<Message> = Vec::new();
        out.push(msg::gotoFrontMatter());
        out
    }

    /// Whether a message from the client ends the slide: the user began.
    pub fn on_message(&self, data: Message) -> (done: bool)
        ensures
            done == msg::has_type("begin"@, data),
    {
        msg::is_begin(data)
    }
}

impl FrontMatter {
    /// Runs the slide over the messages of a client, in the order in which
    /// they came: takes them one by one until the one that ends the slide or
    /// until no message is left. Gives the number of messages taken and
    /// whether the slide is done. Every message before the one that ends
    /// the slide is passed over.
    pub fn run(&self, messages: Vec<Message>) -> (r: (usize, bool))
        ensures
            r.0 <= messages@.len(),
            r.1 ==> r.0 > 0 && msg::has_type("begin"@, messages@[r.0 - 1]),
            !r.1 ==> r.0 == messages@.len(),
            forall|i: int|
                0 <= i < r.0 - (if r.1 {
                    1int
                } else {
                    0int
                }) ==> !msg::has_type("begin"@, #[trigger] messages@[i]),
    {
        let total: usize = messages.len();
        let mut rest = messages;
        let mut taken: usize = 0;
        let mut done = false;
        while !done && rest.len() > 0
            invariant
                taken <= messages@.len(),
                total == messages@.len(),
                rest@ =~= messages@.skip(taken as int),
                done ==> taken > 0 && msg::has_type("begin"@, messages@[taken - 1]),
                forall|i: int|
                    0 <= i < taken - (if done {
                        1int
                    } else {
                        0int
                    }) ==> !msg::has_type("begin"@, #[trigger] messages@[i]),
            decreases rest@.len(),
        {
            assert(rest@.len() == messages@.len() - taken);
            let data = rest.remove(0);
            assert(data == messages@[taken as int]);
            assert(rest@ =~= messages@.skip(taken + 1));
            done = self.on_message(data);
            taken = taken + 1;
        }
        (taken, done)
    }
}

impl Slide for FrontMatter {
    open spec fn number(&self) -> u32 {
        0
    }

    fn page(&self) -> (r: u32) {
        msg::front_matter_num()
    }
}

/// Consent page of the survey.
pub struct Consent {}

impl Consent {
    pub fn new() -> Self {
        Consent {  }
    }

    /// The messages that open the slide: the session's identifier, then the
    /// order to show the page.
    pub fn opening(&self, world: &World) -> (r: Vec<Message>)
        ensures
            r@.len() == 2,
            msg::is_text_message(r@[0], "consentID"@, "id"@, crate::world::hyphenated(world.id)),
            msg::is_goto(r@[1], 1),
    {
        let mut out: Vec<Message> = Vec::new();
        out.push(msg::consentID(world.create_id()));
        out.push(msg::gotoConsent());
        out
    }

    /// Whether a message from the client ends the slide: the user consented.
    pub fn on_message(&self, data: Message) -> (done: bool)
        ensures
            done == msg::has_type("consent"@, data),
    {
        msg::is_consent(data)
    }
}

impl Consent {
    /// Runs the slide over the messages of a client, in the order in which
    /// they came: takes them one by one until the one that ends the slide or
    /// until no message is left. Gives the number of messages taken and
    /// whether the slide is done. Every message before the one that ends
    /// the slide is passed over.
    pub fn run(&self, messages: Vec<Message>) -> (r: (usize, bool))
        ensures
            r.0 <= messages@.len(),
            r.1 ==> r.0 > 0 && msg::has_type("consent"@, messages@[r.0 - 1]),
            !r.1 ==> r.0 == messages@.len(),
            forall|i: int|
                0 <= i < r.0 - (if r.1 {
                    1int
                } else {
                    0int
                }) ==> !msg::has_type("consent"@, #[trigger] messages@[i]),
    {
        let total: usize = messages.len();
        let mut rest = messages;
        let mut taken: usize = 0;
        let mut done = false;
        while !done && rest.len() > 0
            invariant
                taken <= messages@.len(),
                total == messages@.len(),
                rest@ =~= messages@.skip(taken as int),
                done ==> taken > 0 && msg::has_type("consent"@, messages@[taken - 1]),
                forall|i: int|
                    0 <= i < taken - (if done {
                        1int
                    } else {
                        0int
                    }) ==> !msg::has_type("consent"@, #[trigger] messages@[i]),
            decreases rest@.len(),
        {
            assert(rest@.len() == messages@.len() - taken);
            let data = rest.remove(0);
            assert(data == messages@[taken as int]);
            assert(rest@ =~= messages@.skip(taken + 1));
            done = self.on_message(data);
            taken = taken + 1;
        }
        (taken, done)
    }
}

impl Slide for Consent {
    open spec fn number(&self) -> u32 {
        1
    }

    fn page(&self) -> (r: u32) {
        msg::consent_num()
    }
}

//-----------------------------------------------------------------------------
// Likert
//-----------------------------------------------------------------------------

/// Three answers on a five-point scale about one material and gesture.
pub struct Likert {
    pub material: u32,
    pub gesture: String,
}

/// The progress of a `Likert` slide: the answers still owed.
pub struct LikertRun {
    pub remaining: u32,
}

/// The test for a valid answer, as a predicate on messages.
pub open spec fn valid_answer() -> spec_fn(Message) -> bool {
    |m: Message| msg::is_likert(m)
}

/// The answers still owed after one message from the client: a valid answer
/// counts while any is owed, and nothing else does.
pub open spec fn owed_step(owed: u32, data: Message) -> u32 {
    if owed > 0 && msg::is_likert(data) {
        (owed - 1) as u32
    } else {
        owed
    }
}

/// The answers still owed after the messages came in, from `start` owed.
pub open spec fn owed_after(start: u32, msgs: Seq<Message>) -> u32
    decreases msgs.len(),
{
    if msgs.len() == 0 {
        start
    } else {
        owed_step(owed_after(start, msgs.drop_last()), msgs.last())
    }
}

/// The rows written for the messages that came in, from `start` answers
/// owed: one for each valid answer that came while any was owed, in the
/// order in which they came.
pub open spec fn answers_written(
    id: u128,
    gesture: Seq<char>,
    material: u32,
    start: u32,
    msgs: Seq<Message>,
) -> Seq<u8>
    decreases msgs.len(),
{
    if msgs.len() == 0 {
        Seq::empty()
    } else if owed_after(start, msgs.drop_last()) > 0 && msg::is_likert(msgs.last()) {
        answers_written(id, gesture, material, start, msgs.drop_last())
            + crate::world::csv_record(
            crate::world::likert_row(
                id,
                gesture,
                crate::world::decimal(material as nat),
                msg::text_members(msgs.last())["name"@],
                msg::number_members(msgs.last())["value"@] as u32,
            ),
        )
    } else {
        answers_written(id, gesture, material, start, msgs.drop_last())
    }
}

/// A slide that asks for three answers is complete exactly when three valid
/// answers have come in, whatever else came between them; until then it owes
/// three less the number of valid answers.
pub proof fn likert_completes_on_third_answer(msgs: Seq<Message>)
    ensures
        owed_after(3, msgs) == 0 <==> msgs.filter(valid_answer()).len() >= 3,
        msgs.filter(valid_answer()).len() <= 3 ==> owed_after(3, msgs) + msgs.filter(
            valid_answer(),
        ).len() == 3,
    decreases msgs.len(),
{
    reveal(Seq::filter);
    if msgs.len() > 0 {
        likert_completes_on_third_answer(msgs.drop_last());
    }
}

impl Likert {
    pub fn new(material: u32, gesture: String) -> (r: Self)
        ensures
            r.material == material,
            r.gesture == gesture,
    {
        Likert { material: material, gesture: gesture }
    }

    /// The messages that open the slide: material, gesture, then the order
    /// to show the page.
    pub fn opening(&self) -> (r: Vec<Message>)
        ensures
            r@.len() == 3,
            msg::is_material_index(r@[0], self.material, 2),
            msg::is_text_message(r@[1], "gestureType"@, "value"@, self.gesture@),
            msg::is_goto(r@[2], 2),
    {
        let mut out: Vec<Message> = Vec::new();
        out.push(msg::materialIndex(self.material, msg::likert_num()));
        out.push(msg::gestureType(self.gesture.clone()));
        out.push(msg::gotoLikert());
        out
    }

    /// The progress at the start: three answers owed.
    pub fn begin(&self) -> (r: LikertRun)
        ensures
            r.remaining == 3,
    {
        LikertRun { remaining: 3 }
    }

    /// Takes one message from the client. A valid answer is recorded at once
    /// and counts; any other message changes nothing. The slide is done when
    /// no answer is owed.
    pub fn on_message(&self, run: &mut LikertRun, world: &mut World, data: Message) -> (done: bool)
        ensures
            final(run).remaining == owed_step(old(run).remaining, data),
            done == (final(run).remaining == 0),
            final(world).id == old(world).id,
            old(run).remaining > 0 && msg::is_likert(data) ==> final(world).csv@ == old(world).csv@
                + crate::world::csv_record(
                crate::world::likert_row(
                    old(world).id,
                    self.gesture@,
                    crate::world::decimal(self.material as nat),
                    msg::text_members(data)["name"@],
                    msg::number_members(data)["value"@] as u32,
                ),
            ),
            !(old(run).remaining > 0 && msg::is_likert(data)) ==> final(world).csv@ == old(world).csv@,
    {
        if run.remaining > 0 {
            match msg::likert(data) {
                Ok(l) => {
                    let material = number_text(self.material as u128);
                    world.writeLikert(self.gesture.as_str(), material.as_str(), l);
                    run.remaining = run.remaining - 1;
                },
                Err(_) => {},
            }
        }
        run.remaining == 0
    }
}

/// A message that is no valid answer changes nothing, wherever it comes:
/// with it put in among the messages, the same answers are owed and the same
/// rows are written.
pub proof fn unrelated_message_changes_nothing(
    id: u128,
    gesture: Seq<char>,
    material: u32,
    start: u32,
    msgs: Seq<Message>,
    at: int,
    noise: Message,
)
    requires
        0 <= at <= msgs.len(),
        !msg::is_likert(noise),
    ensures
        owed_after(start, msgs.insert(at, noise)) == owed_after(start, msgs),
        answers_written(id, gesture, material, start, msgs.insert(at, noise)) == answers_written(
            id,
            gesture,
            material,
            start,
            msgs,
        ),
    decreases msgs.len(),
{
    let with = msgs.insert(at, noise);
    if at == msgs.len() {
        assert(with.drop_last() =~= msgs);
        assert(with.last() == noise);
    } else {
        assert(with.drop_last() =~= msgs.drop_last().insert(at, noise));
        assert(with.last() == msgs.last());
        unrelated_message_changes_nothing(id, gesture, material, start, msgs.drop_last(), at, noise);
    }
}

impl Likert {
    /// Runs the slide over the messages of a client, in the order in which
    /// they came: takes them one by one until three valid answers are in or
    /// no message is left. Gives the number of messages taken and whether
    /// the slide is done. The slide is done at the third valid answer and
    /// no sooner, whatever came between the answers; messages behind that
    /// answer are not taken; each valid answer is written as it comes.
    pub fn run(&self, world: &mut World, messages: Vec<Message>) -> (r: (usize, bool))
        ensures
            r.0 <= messages@.len(),
            r.1 == (owed_after(3, messages@.take(r.0 as int)) == 0),
            r.1 == (messages@.take(r.0 as int).filter(valid_answer()).len() >= 3),
            r.1 ==> r.0 > 0 && owed_after(3, messages@.take(r.0 - 1)) > 0,
            !r.1 ==> r.0 == messages@.len(),
            final(world).id == old(world).id,
            final(world).csv@ == old(world).csv@ + answers_written(
                old(world).id,
                self.gesture@,
                self.material,
                3,
                messages@.take(r.0 as int),
            ),
    {
        let mut run = self.begin();
        let total: usize = messages.len();
        let mut rest = messages;
        let mut taken: usize = 0;
        let mut done = false;
        assert(messages@.take(0) =~= Seq::<Message>::empty());
        assert(world.csv@ =~= old(world).csv@ + Seq::<u8>::empty());
        while !done && rest.len() > 0
            invariant
                taken <= messages@.len(),
                total == messages@.len(),
                rest@ =~= messages@.skip(taken as int),
                run.remaining == owed_after(3, messages@.take(taken as int)),
                done == (run.remaining == 0),
                done ==> taken > 0 && owed_after(3, messages@.take(taken - 1)) > 0,
                world.id == old(world).id,
                world.csv@ == old(world).csv@ + answers_written(
                    old(world).id,
                    self.gesture@,
                    self.material,
                    3,
                    messages@.take(taken as int),
                ),
            decreases rest@.len(),
        {
            let ghost before = world.csv@;
            let ghost written = answers_written(
                old(world).id,
                self.gesture@,
                self.material,
                3,
                messages@.take(taken as int),
            );
            assert(rest@.len() == messages@.len() - taken);
            let data = rest.remove(0);
            proof {
                assert(data == messages@[taken as int]);
                assert(messages@.take(taken + 1).drop_last() =~= messages@.take(taken as int));
                assert(messages@.take(taken + 1).last() == data);
                assert(rest@ =~= messages@.skip(taken + 1));
            }
            done = self.on_message(&mut run, world, data);
            taken = taken + 1;
            proof {
                let now = answers_written(
                    old(world).id,
                    self.gesture@,
                    self.material,
                    3,
                    messages@.take(taken as int),
                );
                assert(before == old(world).csv@ + written);
                assert(world.csv@ =~= old(world).csv@ + now);
            }
        }
        proof {
            likert_completes_on_third_answer(messages@.take(taken as int));
        }
        (taken, done)
    }
}

impl Slide for Likert {
    open spec fn number(&self) -> u32 {
        2
    }

    fn page(&self) -> (r: u32) {
        msg::likert_num()
    }
}

//-----------------------------------------------------------------------------
// Response: the user reports a property of one or more materials
//-----------------------------------------------------------------------------

/// The user answers by touching materials: each touch that starts and then
/// ends names one material.
pub struct Response {
    /// name of the property asked for
    pub name: String,
    /// number of materials to be named
    pub num_materials: u32,
    /// number of the client's page
    pub slide_num: u32,
}

/// The progress of a `Response` slide.
pub struct ResponseRun {
    /// materials still owed
    pub remaining: u32,
    /// whether a touch has started and not yet ended
    pub armed: bool,
    /// the materials named so far, in order
    pub materials: Vec<String>,
}

/// What a `ResponseRun` holds.
pub ghost struct ResponseState {
    pub remaining: u32,
    pub armed: bool,
    pub materials: Seq<Seq<char>>,
}

impl View for ResponseRun {
    type V = ResponseState;

    open spec fn view(&self) -> ResponseState {
        ResponseState {
            remaining: self.remaining,
            armed: self.armed,
            materials: crate::world::texts(self.materials@),
        }
    }
}

/// The progress after one sample. While materials are owed, a start arms
/// the slide, and an end while armed names the sample's material and
/// disarms; every other sample changes nothing.
pub open spec fn response_step(s: ResponseState, sample: SenselMessage) -> ResponseState {
    if s.remaining == 0 {
        s
    } else if sample.0 == InputType::Start {
        ResponseState { armed: true, ..s }
    } else if sample.0 == InputType::End && s.armed {
        ResponseState {
            remaining: (s.remaining - 1) as u32,
            armed: false,
            materials: s.materials.push(crate::world::decimal(sample.4 as nat)),
        }
    } else {
        s
    }
}

/// The progress after a sequence of samples.
pub open spec fn response_after(s: ResponseState, samples: Seq<SenselMessage>) -> ResponseState
    decreases samples.len(),
{
    if samples.len() == 0 {
        s
    } else {
        response_step(response_after(s, samples.drop_last()), samples.last())
    }
}

/// The number of samples of a phase.
pub open spec fn phase_count(samples: Seq<SenselMessage>, phase: InputType) -> nat
    decreases samples.len(),
{
    if samples.len() == 0 {
        0
    } else {
        phase_count(samples.drop_last(), phase) + if samples.last().0 == phase {
            1nat
        } else {
            0nat
        }
    }
}

/// An end counts only after a start: from a slide that is not armed, the
/// materials named are never more than the starts seen, nor more than the
/// ends seen, and with no start at all nothing is named.
pub proof fn response_needs_start_then_end(s: ResponseState, samples: Seq<SenselMessage>)
    requires
        !s.armed,
    ensures
        response_after(s, samples).materials.len() + (if response_after(s, samples).armed {
            1nat
        } else {
            0nat
        }) <= s.materials.len() + phase_count(samples, InputType::Start),
        response_after(s, samples).materials.len() <= s.materials.len() + phase_count(
            samples,
            InputType::End,
        ),
        response_after(s, samples).materials.len() + response_after(s, samples).remaining
            == s.materials.len() + s.remaining,
        phase_count(samples, InputType::Start) == 0 ==> response_after(s, samples) == s,
    decreases samples.len(),
{
    if samples.len() > 0 {
        response_needs_start_then_end(s, samples.drop_last());
    }
}

impl Response {
    pub fn new(name: String, num_materials: u32, slide_num: u32) -> (r: Self)
        ensures
            r.name == name,
            r.num_materials == num_materials,
            r.slide_num == slide_num,
    {
        Response { name: name, num_materials: num_materials, slide_num: slide_num }
    }

    /// The messages that open the slide.
    pub fn opening(&self) -> (r: Vec<Message>)
        ensures
            r@.len() == 1,
            msg::is_goto(r@[0], self.slide_num),
    {
        let mut out: Vec<Message> = Vec::new();
        out.push(msg::gotoSlide(self.slide_num));
        out
    }

    /// The progress at the start: nothing named, not armed.
    pub fn begin(&self) -> (r: ResponseRun)
        ensures
            r@ == (ResponseState {
                remaining: self.num_materials,
                armed: false,
                materials: Seq::empty(),
            }),
    {
        let r = ResponseRun {
            remaining: self.num_materials,
            armed: false,
            materials: Vec::new(),
        };
        assert(r@.materials =~= Seq::empty());
        r
    }

    /// Takes one sample from the sensor. The slide is done when no material
    /// is owed.
    pub fn on_sample(&self, run: &mut ResponseRun, sample: SenselMessage) -> (done: bool)
        ensures
            final(run)@ == response_step(old(run)@, sample),
            done == (final(run).remaining == 0),
    {
        if run.remaining > 0 {
            if sample.0 == InputType::Start {
                run.armed = true;
            } else if sample.0 == InputType::End && run.armed {
                let ghost before = run.materials@;
                let text = number_text(sample.4 as u128);
                run.materials.push(text);
                run.remaining = run.remaining - 1;
                run.armed = false;
                assert(crate::world::texts(run.materials@) =~= crate::world::texts(before).push(
                    text@,
                ));
            }
        }
        run.remaining == 0
    }

    /// Writes the materials named as one row.
    pub fn record(&self, run: ResponseRun, world: &mut World)
        ensures
            final(world).id == old(world).id,
            final(world).csv@ == old(world).csv@ + crate::world::csv_record(
                crate::world::response_row(old(world).id, self.name@, run@.materials),
            ),
    {
        world.writeResponse(self.name.clone(), run.materials);
    }
}

/// The progress of a response slide for `num_materials` at its start.
pub open spec fn response_start(num_materials: u32) -> ResponseState {
    ResponseState { remaining: num_materials, armed: false, materials: Seq::empty() }
}

impl Response {
    /// Runs the slide over the samples of a sensor, in the order in which
    /// they came: takes them one by one until the materials asked for are
    /// named or no sample is left, and then, if the slide is done, writes
    /// the materials named as one row. Gives the number of samples taken
    /// and whether the slide is done.
    pub fn run(&self, world: &mut World, samples: &Vec<SenselMessage>) -> (r: (usize, bool))
        ensures
            r.0 <= samples@.len(),
            r.1 == (response_after(
                response_start(self.num_materials),
                samples@.take(r.0 as int),
            ).remaining == 0),
            r.1 && r.0 > 0 ==> response_after(
                response_start(self.num_materials),
                samples@.take(r.0 - 1),
            ).remaining > 0,
            !r.1 ==> r.0 == samples@.len(),
            final(world).id == old(world).id,
            r.1 ==> final(world).csv@ == old(world).csv@ + crate::world::csv_record(
                crate::world::response_row(
                    old(world).id,
                    self.name@,
                    response_after(
                        response_start(self.num_materials),
                        samples@.take(r.0 as int),
                    ).materials,
                ),
            ),
            !r.1 ==> final(world).csv@ == old(world).csv@,
    {
        let mut run = self.begin();
        let mut taken: usize = 0;
        assert(samples@.take(0) =~= Seq::<SenselMessage>::empty());
        while run.remaining > 0 && taken < samples.len()
            invariant
                taken <= samples@.len(),
                run@ == response_after(
                    response_start(self.num_materials),
                    samples@.take(taken as int),
                ),
                run.remaining == 0 && taken > 0 ==> response_after(
                    response_start(self.num_materials),
                    samples@.take(taken - 1),
                ).remaining > 0,
            decreases samples@.len() - taken,
        {
            let sample = samples[taken];
            proof {
                assert(samples@.take(taken + 1).drop_last() =~= samples@.take(taken as int));
                assert(samples@.take(taken + 1).last() == sample);
            }
            self.on_sample(&mut run, sample);
            taken = taken + 1;
        }
        let done = run.remaining == 0;
        if done {
            self.record(run, world);
        }
        (taken, done)
    }
}

impl Slide for Response {
    open spec fn number(&self) -> u32 {
        self.slide_num
    }

    fn page(&self) -> (r: u32) {
        self.slide_num
    }
}

//-----------------------------------------------------------------------------
// Press gesture
//-----------------------------------------------------------------------------

/// Radius of the circle without pressure.
pub const OUTPUT_START: i32 = 200;

/// Smallest radius of a ring.
pub const OUTPUT_RING_MIN: i32 = 300;

/// Radius of the circle at full pressure, and bound of a ring's radius.
pub const OUTPUT_END: i32 = 1000;

/// Pressure at which the circle begins to grow.
pub const INPUT_START: i64 = 200;

/// Full pressure.
pub const INPUT_END: i64 = 15000;

/// Time for which circle and ring must stay together, in milliseconds.
pub const HOLD_MILLIS: u64 = 1000;

/// Whether two measures have stayed within tolerance of each other, and
/// since when.
#[derive(PartialEq, Eq, Structural, Debug, Clone, Copy)]
pub struct Window {
    pub within: bool,
    pub since: u64,
}

/// The window after one observation at time `now`, and whether the
/// observation completes a hold. Entering tolerance starts the window; an
/// observation within tolerance a full second or more after that completes
/// the hold and closes the window; one out of tolerance closes it.
pub open spec fn window_step(w: Window, now: u64, overlap: bool) -> (Window, bool) {
    if !overlap {
        (Window { within: false, since: w.since }, false)
    } else if !w.within {
        (Window { within: true, since: now }, false)
    } else if now >= w.since && now - w.since >= HOLD_MILLIS {
        (Window { within: false, since: w.since }, true)
    } else {
        (w, false)
    }
}

/// The window after a sequence of observations, each a time and whether
/// the measures were within tolerance then.
pub open spec fn window_after(obs: Seq<(u64, bool)>) -> Window
    decreases obs.len(),
{
    if obs.len() == 0 {
        Window { within: false, since: 0 }
    } else {
        window_step(window_after(obs.drop_last()), obs.last().0, obs.last().1).0
    }
}

/// The observation at which the open window began.
pub open spec fn armed_at(obs: Seq<(u64, bool)>) -> int
    decreases obs.len(),
{
    if obs.len() == 0 {
        0
    } else if window_after(obs.drop_last()).within {
        armed_at(obs.drop_last())
    } else {
        obs.len() - 1
    }
}

/// An open window began at an observation that is still on record, bears
/// its time, and every observation from there on was within tolerance.
pub proof fn open_window_is_unbroken(obs: Seq<(u64, bool)>)
    requires
        window_after(obs).within,
    ensures
        0 <= armed_at(obs) < obs.len(),
        obs[armed_at(obs)].0 == window_after(obs).since,
        forall|k: int| armed_at(obs) <= k < obs.len() ==> (#[trigger] obs[k]).1,
    decreases obs.len(),
{
    if obs.len() > 0 {
        let before = obs.drop_last();
        if window_after(before).within {
            open_window_is_unbroken(before);
            assert forall|k: int| armed_at(obs) <= k < obs.len() implies (#[trigger] obs[k]).1 by {
                if k < obs.len() - 1 {
                    assert(obs[k] == before[k]);
                }
            }
        }
    }
}

/// A hold is completed only by an observation within tolerance that comes a
/// full second or more after the one that opened the window, with every
/// observation between them within tolerance too.
pub proof fn hold_needs_an_unbroken_second(obs: Seq<(u64, bool)>, now: u64, overlap: bool)
    requires
        window_step(window_after(obs), now, overlap).1,
    ensures
        overlap,
        0 <= armed_at(obs) < obs.len(),
        forall|k: int| armed_at(obs) <= k < obs.len() ==> (#[trigger] obs[k]).1,
        now - obs[armed_at(obs)].0 >= HOLD_MILLIS,
        !window_step(window_after(obs), now, overlap).0.within,
{
    open_window_is_unbroken(obs);
}

impl Window {
    /// A closed window.
    pub fn new() -> (r: Self)
        ensures
            r == window_after(Seq::empty()),
    {
        Window { within: false, since: 0 }
    }

    /// Takes one observation; says whether it completes a hold.
    pub fn observe(&mut self, now: u64, overlap: bool) -> (completed: bool)
        ensures
            (*final(self), completed) == window_step(*old(self), now, overlap),
    {
        if !overlap {
            self.within = false;
            false
        } else if !self.within {
            self.within = true;
            self.since = now;
            false
        } else if now >= self.since && now - self.since >= HOLD_MILLIS {
            self.within = false;
            true
        } else {
            false
        }
    }
}

/// Press page of the survey: the user presses until a circle meets a ring.
pub struct Press {
    pub material: u32,
    /// seconds for which the slide runs
    pub duration: u64,
    /// distance at which circle and ring count as together
    pub tolerance: i64,
}

/// The progress of a `Press` slide.
pub struct PressRun {
    /// radius of the ring now shown
    pub ring: i64,
    pub window: Window,
    /// circle and ring of each completed press, as they were held
    pub events: Vec<(i64, i64)>,
    /// the contacts that led up to each completed press
    pub closed: Vec<Contacts>,
    /// the contacts since the last completed press
    pub open: Contacts,
}

/// What a `PressRun` holds.
pub ghost struct PressState {
    pub ring: i64,
    pub window: Window,
    pub events: Seq<(i64, i64)>,
    pub closed: Seq<Seq<(u128, u32, u32, u32)>>,
    pub open: Seq<(u128, u32, u32, u32)>,
}

impl View for PressRun {
    type V = PressState;

    open spec fn view(&self) -> PressState {
        PressState {
            ring: self.ring,
            window: self.window,
            events: self.events@,
            closed: traces(self.closed@),
            open: self.open@,
        }
    }
}

/// The radius of the circle under a pressure.
pub open spec fn circle_of(level: i64) -> int {
    mapped(
        OUTPUT_START as int,
        OUTPUT_END as int,
        INPUT_START as int,
        INPUT_END as int,
        level as int,
    )
}

/// Circle and ring are together: their radii differ by no more than the
/// tolerance.
pub open spec fn together(ring: int, circle: int, tolerance: int) -> bool {
    -tolerance <= ring - circle <= tolerance
}

/// A radius that a ring can have.
pub open spec fn is_ring(ring: i64) -> bool {
    OUTPUT_RING_MIN <= ring < OUTPUT_END
}

impl PressRun {
    /// The ring shown is one that can be drawn, and every completed press
    /// has its trace.
    pub open spec fn wf(&self) -> bool {
        &&& is_ring(self.ring)
        &&& self.events@.len() == self.closed@.len()
    }
}

impl Press {
    pub fn new(material: u32, duration: u64, tolerance: i64) -> (r: Self)
        ensures
            r.material == material,
            r.duration == duration,
            r.tolerance == tolerance,
    {
        Press { material: material, duration: duration, tolerance: tolerance }
    }

    /// The messages that open the slide.
    pub fn opening(&self) -> (r: Vec<Message>)
        ensures
            r@.len() == 2,
            msg::is_material_index(r@[0], self.material, 3),
            msg::is_goto(r@[1], 3),
    {
        let mut out: Vec<Message> = Vec::new();
        out.push(msg::materialIndex(self.material, msg::press_num()));
        out.push(msg::gotoPress());
        out
    }

    /// A radius for the next ring, drawn at random.
    pub fn draw_ring() -> (r: i64)
        ensures
            OUTPUT_RING_MIN <= r < OUTPUT_END,
    {
        random_between(OUTPUT_RING_MIN as i64, OUTPUT_END as i64)
    }

    /// Whether the slide has run out at `now`.
    pub fn expired(&self, now: u64) -> (r: bool)
        ensures
            r == run_out(self.duration, now),
    {
        now / 1000 >= self.duration
    }

    /// The progress at the start, with the first ring: no press completed
    /// yet.
    pub fn begin(&self, ring: i64) -> (r: PressRun)
        requires
            is_ring(ring),
        ensures
            r@ == (PressState {
                ring,
                window: window_after(Seq::empty()),
                events: Seq::empty(),
                closed: Seq::empty(),
                open: Seq::empty(),
            }),
            r.wf(),
    {
        let r = PressRun {
            ring,
            window: Window::new(),
            events: Vec::new(),
            closed: Vec::new(),
            open: Vec::new(),
        };
        assert(r@.closed =~= Seq::empty());
        assert(r@.events =~= Seq::empty());
        r
    }

    /// The progress after one sample at time `now`, whose pressure is
    /// `level`, where `next_ring` is the ring to show after a completed
    /// press. A sample of another material changes nothing. Any other is
    /// added to the open trace and observed: a completed hold records the
    /// circle with the ring that it was held against, together with the
    /// trace that led up to it, and only then is the new ring shown.
    pub open spec fn step(
        &self,
        s: PressState,
        now: u64,
        sample: SenselMessage,
        level: i64,
        next_ring: i64,
    ) -> PressState {
        if sample.4 != self.material {
            s
        } else {
            let circle = circle_of(level);
            let open = s.open.push((now as u128, sample.1, sample.2, sample.3));
            let (window, completed) = window_step(
                s.window,
                now,
                together(s.ring as int, circle, self.tolerance as int),
            );
            if completed {
                PressState {
                    ring: next_ring,
                    window,
                    events: s.events.push((circle as i64, s.ring)),
                    closed: s.closed.push(open),
                    open: Seq::empty(),
                }
            } else {
                PressState { window, open, ..s }
            }
        }
    }

    /// A sample adds at most one press to the record, and the pair that it
    /// adds was within tolerance when the hold was completed.
    pub proof fn recorded_pair_was_held(
        &self,
        s: PressState,
        now: u64,
        sample: SenselMessage,
        level: i64,
        next_ring: i64,
    )
        ensures
            self.step(s, now, sample, level, next_ring).events == s.events || ({
                let after = self.step(s, now, sample, level, next_ring);
                &&& after.events == s.events.push((circle_of(level) as i64, s.ring))
                &&& together(s.ring as int, circle_of(level), self.tolerance as int)
                &&& sample.4 == self.material
                &&& s.window.within
                &&& now - s.window.since >= HOLD_MILLIS
                &&& after.ring == next_ring
                &&& !after.window.within
            }),
    {
    }

    /// Takes one sample from the sensor. Gives the circle and ring to show,
    /// or nothing for a sample of another material.
    pub fn on_sample(
        &self,
        run: &mut PressRun,
        now: u64,
        sample: SenselMessage,
        level: i64,
        next_ring: i64,
    ) -> (shown: Option<(i64, i64)>)
        requires
            old(run).wf(),
            is_ring(next_ring),
        ensures
            final(run)@ == self.step(old(run)@, now, sample, level, next_ring),
            final(run).wf(),
            shown == (if sample.4 == self.material {
                Some((circle_of(level) as i64, final(run).ring))
            } else {
                None
            }),
    {
        if sample.4 != self.material {
            return None;
        }
        let circle = range(OUTPUT_START, OUTPUT_END, INPUT_START, INPUT_END, level);
        run.open.push((now as u128, sample.1, sample.2, sample.3));
        let gap: i128 = run.ring as i128 - circle as i128;
        let limit: i128 = self.tolerance as i128;
        let overlap = -limit <= gap && gap <= limit;
        if run.window.observe(now, overlap) {
            let ghost before = run.closed@;
            let mut trace: Contacts = Vec::new();
            std::mem::swap(&mut run.open, &mut trace);
            run.closed.push(trace);
            run.events.push((circle, run.ring));
            run.ring = next_ring;
            assert(traces(run.closed@) =~= traces(before).push(trace@));
        }
        Some((circle, run.ring))
    }

    /// The completed presses of a finished slide, each with the contacts
    /// that led up to it. Contacts after the last completed press belong to
    /// none and are left out.
    pub fn finish(&self, run: PressRun) -> (r: (Vec<(i64, i64)>, Vec<Contacts>))
        requires
            run.wf(),
        ensures
            r.0@ == run@.events,
            traces(r.1@) == run@.closed,
            r.0@.len() == r.1@.len(),
    {
        (run.events, run.closed)
    }
}

/// One sample as a press slide takes it: the time, the sample, the pressure
/// and the ring to show if the sample completes a press.
pub type PressInput = (u64, SenselMessage, i64, i64);

impl Press {
    /// The progress after a sequence of samples.
    pub open spec fn after(&self, s: PressState, inputs: Seq<PressInput>) -> PressState
        decreases inputs.len(),
    {
        if inputs.len() == 0 {
            s
        } else {
            self.step(
                self.after(s, inputs.drop_last()),
                inputs.last().0,
                inputs.last().1,
                inputs.last().2,
                inputs.last().3,
            )
        }
    }

    /// Every pair on record was within tolerance when it was recorded.
    pub open spec fn all_held(&self, events: Seq<(i64, i64)>) -> bool {
        forall|k: int|
            0 <= k < events.len() ==> together(
                (#[trigger] events[k]).1 as int,
                events[k].0 as int,
                self.tolerance as int,
            )
    }

    /// Runs the slide over the samples of a sensor, in the order in which
    /// they came, from the first ring: takes them one by one until the
    /// slide's time has run out or no sample is left. Gives the completed
    /// presses, the contacts that led up to each, and the number of samples
    /// taken. Every press on record was held within tolerance.
    pub fn run(&self, ring: i64, inputs: &Vec<PressInput>) -> (r: (
        Vec<(i64, i64)>,
        Vec<Contacts>,
        usize,
    ))
        requires
            is_ring(ring),
            forall|i: int| 0 <= i < inputs@.len() ==> is_ring((#[trigger] inputs@[i]).3),
        ensures
            r.2 <= inputs@.len(),
            forall|i: int| 0 <= i < r.2 ==> !run_out(self.duration, (#[trigger] inputs@[i]).0),
            r.2 < inputs@.len() ==> run_out(self.duration, inputs@[r.2 as int].0),
            r.0@ == self.after(
                PressState {
                    ring,
                    window: window_after(Seq::empty()),
                    events: Seq::empty(),
                    closed: Seq::empty(),
                    open: Seq::empty(),
                },
                inputs@.take(r.2 as int),
            ).events,
            traces(r.1@) == self.after(
                PressState {
                    ring,
                    window: window_after(Seq::empty()),
                    events: Seq::empty(),
                    closed: Seq::empty(),
                    open: Seq::empty(),
                },
                inputs@.take(r.2 as int),
            ).closed,
            r.0@.len() == r.1@.len(),
            self.all_held(r.0@),
    {
        let mut run = self.begin(ring);
        let ghost start = run@;
        let mut taken: usize = 0;
        assert(inputs@.take(0) =~= Seq::<PressInput>::empty());
        while taken < inputs.len() && !self.expired(inputs[taken].0)
            invariant
                taken <= inputs@.len(),
                run.wf(),
                forall|i: int| 0 <= i < inputs@.len() ==> is_ring((#[trigger] inputs@[i]).3),
                forall|i: int| 0 <= i < taken ==> !run_out(self.duration, (#[trigger] inputs@[i]).0),
                run@ == self.after(start, inputs@.take(taken as int)),
                self.all_held(run.events@),
            decreases inputs@.len() - taken,
        {
            let input = inputs[taken];
            proof {
                assert(inputs@.take(taken + 1).drop_last() =~= inputs@.take(taken as int));
                assert(inputs@.take(taken + 1).last() == input);
                self.recorded_pair_was_held(run@, input.0, input.1, input.2, input.3);
            }
            self.on_sample(&mut run, input.0, input.1, input.2, input.3);
            taken = taken + 1;
        }
        let (events, contacts) = self.finish(run);
        (events, contacts, taken)
    }
}

impl Slide for Press {
    open spec fn number(&self) -> u32 {
        3
    }

    fn page(&self) -> (r: u32) {
        msg::press_num()
    }
}

//-----------------------------------------------------------------------------
// Slider and tap gestures: the user follows a target that moves to and fro
//-----------------------------------------------------------------------------

/// Left end of the target's travel.
pub const MIN_X: i32 = 500;

/// Right end of the target's travel.
pub const MAX_X: i32 = 6500;

/// Width of the user's mark.
pub const USER_X_SIZE: i32 = 200;

/// Width of the target at the start.
pub const BOX_X_SIZE: i64 = 1500;

/// Smallest width of the target: three times the user's mark.
pub const MIN_BOX_X_SIZE: i64 = 600;

/// Distance that the target moves in one tick.
pub const STEP_SIZE: i64 = 20;

/// Width that the target loses when the user is inside it.
pub const SHRINK: i64 = 6;

/// Distance that the target moves on when the user is inside it.
pub const NUDGE: i64 = 5;

/// Time between two ticks of the animation, in milliseconds.
pub const TICK_MILLIS: u64 = 16;

/// The moving target: left edge, width, and the signed step of one tick.
#[derive(PartialEq, Eq, Structural, Debug, Clone, Copy)]
pub struct Target {
    pub box_x: i64,
    pub box_size: i64,
    pub direction: i64,
}

/// The target after one tick of the animation: it moves one step in its
/// direction; where that brings its right edge to the right end of the
/// travel or beyond, it is put against that end and turns left, and where
/// it brings its left edge to the left end or beyond, it is put against
/// that end and turns right.
pub open spec fn tick_of(t: Target) -> Target {
    let moved = t.box_x + t.direction;
    if moved + t.box_size >= MAX_X {
        Target {
            box_x: (MAX_X - t.box_size) as i64,
            box_size: t.box_size,
            direction: (-STEP_SIZE) as i64,
        }
    } else if moved <= MIN_X {
        Target { box_x: MIN_X as i64, box_size: t.box_size, direction: STEP_SIZE }
    } else {
        Target { box_x: moved as i64, box_size: t.box_size, direction: t.direction }
    }
}

/// The user's mark at `user_x` lies inside the target.
pub open spec fn contains(t: Target, user_x: int) -> bool {
    user_x >= t.box_x && user_x + USER_X_SIZE <= t.box_x + t.box_size
}

/// The target after the user was found inside it: narrower, down to the
/// smallest width, and moved on a little in its direction, but no further
/// than the end of its travel.
pub open spec fn hit_of(t: Target) -> Target {
    let size = if t.box_size - SHRINK >= MIN_BOX_X_SIZE {
        (t.box_size - SHRINK) as i64
    } else {
        MIN_BOX_X_SIZE
    };
    let moved = t.box_x + if t.direction < 0 {
        -NUDGE
    } else {
        NUDGE as int
    };
    Target {
        box_x: if moved + size >= MAX_X {
            (MAX_X - size) as i64
        } else if moved <= MIN_X {
            MIN_X as i64
        } else {
            moved as i64
        },
        box_size: size,
        direction: t.direction,
    }
}

/// After every tick the target lies within its travel, whatever its position
/// was; it has moved by exactly its step unless that met an end of the
/// travel, and then it stands against that end and points away from it.
pub proof fn tick_keeps_target_in_travel(t: Target)
    requires
        MIN_BOX_X_SIZE <= t.box_size <= BOX_X_SIZE,
        t.direction == STEP_SIZE || t.direction == -STEP_SIZE,
    ensures
        MIN_X <= tick_of(t).box_x <= MAX_X - tick_of(t).box_size,
        tick_of(t).box_size == t.box_size,
        MIN_X < t.box_x + t.direction && t.box_x + t.direction + t.box_size < MAX_X ==> tick_of(t)
            == (Target { box_x: (t.box_x + t.direction) as i64, ..t }),
        t.box_x + t.direction + t.box_size >= MAX_X ==> tick_of(t).box_x == MAX_X - t.box_size
            && tick_of(t).direction == -STEP_SIZE,
        t.box_x + t.direction + t.box_size < MAX_X && t.box_x + t.direction <= MIN_X ==> tick_of(
            t,
        ).box_x == MIN_X && tick_of(t).direction == STEP_SIZE,
{
}

/// After every hit the target lies within its travel, whatever its position
/// was, and is no wider than before and no narrower than the smallest width.
pub proof fn hit_keeps_target_in_travel(t: Target)
    requires
        MIN_BOX_X_SIZE <= t.box_size <= BOX_X_SIZE,
    ensures
        MIN_X <= hit_of(t).box_x <= MAX_X - hit_of(t).box_size,
        MIN_BOX_X_SIZE <= hit_of(t).box_size <= t.box_size,
        hit_of(t).direction == t.direction,
{
}

impl Target {
    /// The target keeps to its sizes and steps, and lies within its travel.
    pub open spec fn wf(&self) -> bool {
        &&& MIN_BOX_X_SIZE <= self.box_size <= BOX_X_SIZE
        &&& (self.direction == STEP_SIZE || self.direction == -STEP_SIZE)
        &&& MIN_X <= self.box_x <= MAX_X - self.box_size
    }

    /// The target at the start: at the left end, full width, moving left.
    pub fn new() -> (r: Self)
        ensures
            r == (Target {
                box_x: MIN_X as i64,
                box_size: BOX_X_SIZE,
                direction: (-STEP_SIZE) as i64,
            }),
            r.wf(),
    {
        Target { box_x: MIN_X as i64, box_size: BOX_X_SIZE, direction: -STEP_SIZE }
    }

    /// One tick of the animation.
    pub fn tick(&mut self)
        requires
            old(self).wf(),
        ensures
            *final(self) == tick_of(*old(self)),
            final(self).wf(),
            MIN_X <= final(self).box_x <= MAX_X - final(self).box_size,
    {
        let moved = self.box_x + self.direction;
        if moved + self.box_size >= MAX_X as i64 {
            self.direction = -STEP_SIZE;
            self.box_x = MAX_X as i64 - self.box_size;
        } else if moved <= MIN_X as i64 {
            self.direction = STEP_SIZE;
            self.box_x = MIN_X as i64;
        } else {
            self.box_x = moved;
        }
    }

    /// Tests whether the user's mark lies inside the target and, if so,
    /// narrows the target and moves it on.
    pub fn on_contact(&mut self, user_x: i64) -> (inside: bool)
        requires
            old(self).wf(),
            MIN_X <= user_x <= MAX_X,
        ensures
            inside == contains(*old(self), user_x as int),
            *final(self) == (if inside {
                hit_of(*old(self))
            } else {
                *old(self)
            }),
            final(self).wf(),
    {
        if user_x >= self.box_x && user_x + USER_X_SIZE as i64 <= self.box_x + self.box_size {
            self.box_size = if self.box_size - SHRINK >= MIN_BOX_X_SIZE {
                self.box_size - SHRINK
            } else {
                MIN_BOX_X_SIZE
            };
            let moved = self.box_x + if self.direction < 0 {
                -NUDGE
            } else {
                NUDGE
            };
            self.box_x = if moved + self.box_size >= MAX_X as i64 {
                MAX_X as i64 - self.box_size
            } else if moved <= MIN_X as i64 {
                MIN_X as i64
            } else {
                moved
            };
            true
        } else {
            false
        }
    }
}

/// The progress of a slide with a moving target.
pub struct Track {
    /// where the user's mark is
    pub user_x: i64,
    pub target: Target,
    /// time of the last tick of the animation
    pub last_tick: u64,
    /// the target's position and width each time the user was found inside
    /// it, as the hit left them
    pub events: Vec<(i64, i64)>,
    /// the contacts that led up to each such event
    pub closed: Vec<Contacts>,
    /// the contacts since the last event
    pub open: Contacts,
}

/// What a `Track` holds.
pub ghost struct TrackState {
    pub user_x: i64,
    pub target: Target,
    pub last_tick: u64,
    pub events: Seq<(i64, i64)>,
    pub closed: Seq<Seq<(u128, u32, u32, u32)>>,
    pub open: Seq<(u128, u32, u32, u32)>,
}

impl View for Track {
    type V = TrackState;

    open spec fn view(&self) -> TrackState {
        TrackState {
            user_x: self.user_x,
            target: self.target,
            last_tick: self.last_tick,
            events: self.events@,
            closed: traces(self.closed@),
            open: self.open@,
        }
    }
}

/// Where the user's mark goes for a reading `x` on a pad that reaches from
/// `left` to `right`.
pub open spec fn user_at(left: i64, right: i64, x: i64) -> int {
    mapped(MIN_X as int, MAX_X - USER_X_SIZE, left as int, right as int, x as int)
}

/// The progress after one sample at time `now` whose position is `x`, for a
/// slide on `material` with a pad from `left` to `right`. A sample of
/// another material changes nothing. Any other moves the user's mark and is
/// added to the open trace; if the mark then lies inside the target, the
/// target is narrowed and moved on, recorded, and the trace closed.
pub open spec fn track_step(
    s: TrackState,
    material: u32,
    left: i64,
    right: i64,
    now: u64,
    sample: SenselMessage,
    x: i64,
) -> TrackState {
    if sample.4 != material {
        s
    } else {
        let user_x = user_at(left, right, x);
        let open = s.open.push((now as u128, sample.1, sample.2, sample.3));
        if contains(s.target, user_x) {
            let target = hit_of(s.target);
            TrackState {
                user_x: user_x as i64,
                target,
                events: s.events.push((target.box_x, target.box_size)),
                closed: s.closed.push(open),
                open: Seq::empty(),
                ..s
            }
        } else {
            TrackState { user_x: user_x as i64, open, ..s }
        }
    }
}

/// Whether a tick of the animation is due at `now`.
pub open spec fn tick_due(last_tick: u64, now: u64) -> bool {
    now >= last_tick && now - last_tick > TICK_MILLIS
}

/// The progress after the clock was read at `now`: a tick, if one is due.
pub open spec fn track_clock(s: TrackState, now: u64) -> TrackState {
    if tick_due(s.last_tick, now) {
        TrackState { target: tick_of(s.target), last_tick: now, ..s }
    } else {
        s
    }
}

/// The progress at the start, with the user's mark at `user_x`: the target
/// at the left end, full width, moving left; no tick yet, no event and no
/// contact.
pub open spec fn track_start(user_x: i64) -> TrackState {
    TrackState {
        user_x,
        target: Target {
            box_x: MIN_X as i64,
            box_size: BOX_X_SIZE,
            direction: (-STEP_SIZE) as i64,
        },
        last_tick: 0,
        events: Seq::empty(),
        closed: Seq::empty(),
        open: Seq::empty(),
    }
}

/// A recorded place and width of the target lie within its travel.
pub open spec fn in_travel(event: (i64, i64)) -> bool {
    MIN_BOX_X_SIZE <= event.1 <= BOX_X_SIZE && MIN_X <= event.0 <= MAX_X - event.1
}

impl Track {
    /// The target is well formed, every event has its trace, and every
    /// event shows the target within its travel.
    pub open spec fn wf(&self) -> bool {
        &&& self.target.wf()
        &&& self.events@.len() == self.closed@.len()
        &&& forall|i: int| 0 <= i < self.events@.len() ==> in_travel(#[trigger] self.events@[i])
    }

    /// The progress at the start, with the user's mark at `user_x`.
    pub fn start(user_x: i64) -> (r: Self)
        ensures
            r@ == track_start(user_x),
            r.wf(),
    {
        let r = Track {
            user_x,
            target: Target::new(),
            last_tick: 0,
            events: Vec::new(),
            closed: Vec::new(),
            open: Vec::new(),
        };
        assert(r@.closed =~= Seq::empty());
        assert(r@.events =~= Seq::empty());
        r
    }

    /// Takes one sample from the sensor; says whether it was of the slide's
    /// material.
    pub fn on_sample(
        &mut self,
        material: u32,
        left: i64,
        right: i64,
        now: u64,
        sample: SenselMessage,
        x: i64,
    ) -> (taken: bool)
        requires
            old(self).wf(),
        ensures
            final(self)@ == track_step(old(self)@, material, left, right, now, sample, x),
            final(self).wf(),
            taken == (sample.4 == material),
    {
        if sample.4 != material {
            return false;
        }
        let user_x = range(MIN_X, MAX_X - USER_X_SIZE, left, right, x);
        self.user_x = user_x;
        self.open.push((now as u128, sample.1, sample.2, sample.3));
        if self.target.on_contact(user_x) {
            let ghost before = self.closed@;
            let mut trace: Contacts = Vec::new();
            std::mem::swap(&mut self.open, &mut trace);
            self.closed.push(trace);
            self.events.push((self.target.box_x, self.target.box_size));
            assert(traces(self.closed@) =~= traces(before).push(trace@));
        }
        true
    }

    /// Reads the clock: where a tick of the animation is due, the target
    /// moves and its new place is given, to be shown.
    pub fn on_clock(&mut self, now: u64) -> (shown: Option<(i64, i64, i64)>)
        requires
            old(self).wf(),
        ensures
            final(self)@ == track_clock(old(self)@, now),
            final(self).wf(),
            shown == (if tick_due(old(self).last_tick, now) {
                Some((final(self).user_x, final(self).target.box_x, final(self).target.box_size))
            } else {
                None
            }),
            shown is Some ==> MIN_X <= final(self).target.box_x <= MAX_X - final(self).target.box_size,
    {
        if now >= self.last_tick && now - self.last_tick > TICK_MILLIS {
            self.target.tick();
            self.last_tick = now;
            Some((self.user_x, self.target.box_x, self.target.box_size))
        } else {
            None
        }
    }

    /// The events of a finished slide, each with the contacts that led up
    /// to it. Contacts after the last event belong to none and are left out.
    pub fn finish(self) -> (r: (Vec<(i64, i64)>, Vec<Contacts>))
        requires
            self.wf(),
        ensures
            r.0@ == self@.events,
            traces(r.1@) == self@.closed,
            r.0@.len() == r.1@.len(),
            forall|i: int| 0 <= i < r.0@.len() ==> in_travel(#[trigger] r.0@[i]),
    {
        (self.events, self.closed)
    }
}

/// What a slide with a moving target takes: a sample of the sensor at a
/// time, with its position, or a reading of the clock.
#[derive(Debug, Clone, Copy)]
pub enum TrackInput {
    Sample(u64, SenselMessage, i64),
    Clock(u64),
}

/// The time of an input.
pub open spec fn time_of(input: TrackInput) -> u64 {
    match input {
        TrackInput::Sample(now, _, _) => now,
        TrackInput::Clock(now) => now,
    }
}

/// The progress after one input.
pub open spec fn track_take(
    s: TrackState,
    material: u32,
    left: i64,
    right: i64,
    input: TrackInput,
) -> TrackState {
    match input {
        TrackInput::Sample(now, sample, x) => track_step(s, material, left, right, now, sample, x),
        TrackInput::Clock(now) => track_clock(s, now),
    }
}

/// The progress after a sequence of inputs.
pub open spec fn track_after(
    s: TrackState,
    material: u32,
    left: i64,
    right: i64,
    inputs: Seq<TrackInput>,
) -> TrackState
    decreases inputs.len(),
{
    if inputs.len() == 0 {
        s
    } else {
        track_take(
            track_after(s, material, left, right, inputs.drop_last()),
            material,
            left,
            right,
            inputs.last(),
        )
    }
}

/// What was shown over a sequence of inputs: the user's mark and the target
/// after each tick of the animation, in order.
pub open spec fn track_shown(
    s: TrackState,
    material: u32,
    left: i64,
    right: i64,
    inputs: Seq<TrackInput>,
) -> Seq<(i64, i64, i64)>
    decreases inputs.len(),
{
    if inputs.len() == 0 {
        Seq::empty()
    } else if inputs.last() is Clock && tick_due(
        track_after(s, material, left, right, inputs.drop_last()).last_tick,
        time_of(inputs.last()),
    ) {
        track_shown(s, material, left, right, inputs.drop_last()).push(
            (
                track_after(s, material, left, right, inputs).user_x,
                track_after(s, material, left, right, inputs).target.box_x,
                track_after(s, material, left, right, inputs).target.box_size,
            ),
        )
    } else {
        track_shown(s, material, left, right, inputs.drop_last())
    }
}

/// The result of a run with a moving target.
pub struct TrackRecord {
    /// the target each time the user was found inside it
    pub events: Vec<(i64, i64)>,
    /// the contacts that led up to each event
    pub contacts: Vec<Contacts>,
    /// the user's mark and the target after each tick
    pub shown: Vec<(i64, i64, i64)>,
    /// the number of inputs taken
    pub taken: usize,
}

/// A record is that of a run from `user_x` over the inputs: the inputs taken
/// are those before the first whose time has run out, and events, contacts
/// and what was shown are those of the progress after them.
pub open spec fn records_run(
    r: TrackRecord,
    user_x: i64,
    material: u32,
    duration: u64,
    left: i64,
    right: i64,
    inputs: Seq<TrackInput>,
) -> bool {
    &&& r.taken <= inputs.len()
    &&& forall|i: int| 0 <= i < r.taken ==> !run_out(duration, time_of(#[trigger] inputs[i]))
    &&& r.taken < inputs.len() ==> run_out(duration, time_of(inputs[r.taken as int]))
    &&& r.events@ == track_after(
        track_start(user_x),
        material,
        left,
        right,
        inputs.take(r.taken as int),
    ).events
    &&& traces(r.contacts@) == track_after(
        track_start(user_x),
        material,
        left,
        right,
        inputs.take(r.taken as int),
    ).closed
    &&& r.shown@ == track_shown(
        track_start(user_x),
        material,
        left,
        right,
        inputs.take(r.taken as int),
    )
}

impl Track {
    /// Runs a slide with a moving target over its inputs, in the order in
    /// which they came: takes them one by one until the slide's time has run
    /// out or no input is left. Every event on record and every target
    /// shown lies within the travel.
    pub fn run(
        user_x: i64,
        material: u32,
        duration: u64,
        left: i64,
        right: i64,
        inputs: &Vec<TrackInput>,
    ) -> (r: TrackRecord)
        ensures
            records_run(r, user_x, material, duration, left, right, inputs@),
            r.events@.len() == r.contacts@.len(),
            forall|i: int| 0 <= i < r.events@.len() ==> in_travel(#[trigger] r.events@[i]),
            forall|i: int|
                0 <= i < r.shown@.len() ==> MIN_X <= (#[trigger] r.shown@[i]).1 <= MAX_X
                    - r.shown@[i].2,
    {
        let mut run = Track::start(user_x);
        let mut shown: Vec<(i64, i64, i64)> = Vec::new();
        let mut taken: usize = 0;
        assert(inputs@.take(0) =~= Seq::<TrackInput>::empty());
        loop
            invariant
                taken <= inputs@.len(),
                run.wf(),
                forall|i: int|
                    0 <= i < taken ==> !run_out(duration, time_of(#[trigger] inputs@[i])),
                run@ == track_after(
                    track_start(user_x),
                    material,
                    left,
                    right,
                    inputs@.take(taken as int),
                ),
                shown@ == track_shown(
                    track_start(user_x),
                    material,
                    left,
                    right,
                    inputs@.take(taken as int),
                ),
                forall|i: int|
                    0 <= i < shown@.len() ==> MIN_X <= (#[trigger] shown@[i]).1 <= MAX_X
                        - shown@[i].2,
            ensures
                taken < inputs@.len() ==> run_out(duration, time_of(inputs@[taken as int])),
            decreases inputs@.len() - taken,
        {
            if taken >= inputs.len() {
                break ;
            }
            let input = inputs[taken];
            let now: u64 = match input {
                TrackInput::Sample(now, _, _) => now,
                TrackInput::Clock(now) => now,
            };
            if now / 1000 >= duration {
                break ;
            }
            proof {
                assert(inputs@.take(taken + 1).drop_last() =~= inputs@.take(taken as int));
                assert(inputs@.take(taken + 1).last() == input);
            }
            match input {
                TrackInput::Sample(now, sample, x) => {
                    run.on_sample(material, left, right, now, sample, x);
                },
                TrackInput::Clock(now) => {
                    match run.on_clock(now) {
                        Some(place) => {
                            shown.push(place);
                        },
                        None => {},
                    }
                },
            }
            taken = taken + 1;
        }
        let (events, contacts) = run.finish();
        TrackRecord { events, contacts, shown, taken }
    }
}

/// Slider page of the survey: the user slides along with the target.
pub struct Slider {
    /// material index
    pub material: u32,
    /// seconds for which the slide runs
    pub duration: u64,
    pub tolerance: i32,
    /// left edge of the pad
    pub top_left_x: i32,
    /// top edge of the pad
    pub top_left_y: i32,
    /// width of the pad
    pub width: i32,
    /// height of the pad
    pub height: i32,
}

impl Slider {
    pub fn new(
        material: u32,
        duration: u64,
        tolerance: i32,
        top_left_x: i32,
        top_left_y: i32,
        width: i32,
        height: i32,
    ) -> (r: Self)
        ensures
            r == (Slider { material, duration, tolerance, top_left_x, top_left_y, width, height }),
    {
        Slider {
            material: material,
            duration: duration,
            tolerance: tolerance,
            top_left_x: top_left_x,
            top_left_y: top_left_y,
            width: width,
            height: height,
        }
    }

    /// The messages that open the slide.
    pub fn opening(&self) -> (r: Vec<Message>)
        ensures
            r@.len() == 2,
            msg::is_material_index(r@[0], self.material, 8),
            msg::is_goto(r@[1], 8),
    {
        let mut out: Vec<Message> = Vec::new();
        out.push(msg::materialIndex(self.material, msg::slider_num()));
        out.push(msg::gotoSlider());
        out
    }

    /// A first place for the user's mark, drawn at random.
    pub fn draw_user_x() -> (r: i64)
        ensures
            MIN_X <= r < MAX_X - USER_X_SIZE,
    {
        random_between(MIN_X as i64, (MAX_X - USER_X_SIZE) as i64)
    }

    /// Whether the slide has run out at `now`.
    pub fn expired(&self, now: u64) -> (r: bool)
        ensures
            r == run_out(self.duration, now),
    {
        now / 1000 >= self.duration
    }

    /// The progress at the start.
    pub fn begin(&self, user_x: i64) -> (r: Track)
        ensures
            r@ == track_start(user_x),
            r.wf(),
    {
        Track::start(user_x)
    }

    /// Takes one sample from the sensor, whose position is `x`; says whether
    /// it was of this slide's material.
    pub fn on_sample(&self, run: &mut Track, now: u64, sample: SenselMessage, x: i64) -> (taken:
        bool)
        requires
            old(run).wf(),
        ensures
            final(run)@ == track_step(
                old(run)@,
                self.material,
                self.top_left_x as i64,
                (self.top_left_x + self.width) as i64,
                now,
                sample,
                x,
            ),
            final(run).wf(),
            taken == (sample.4 == self.material),
    {
        let left: i64 = self.top_left_x as i64;
        let right: i64 = left + self.width as i64;
        run.on_sample(self.material, left, right, now, sample, x)
    }
}

impl Slider {
    /// Runs the slide over its inputs, in the order in which they came, with
    /// the user's mark first at `user_x`, until the slide's time has run out
    /// or no input is left. Every event on record and every target shown
    /// lies within the travel.
    pub fn run(&self, user_x: i64, inputs: &Vec<TrackInput>) -> (r: TrackRecord)
        ensures
            records_run(
                r,
                user_x,
                self.material,
                self.duration,
                self.top_left_x as i64,
                (self.top_left_x + self.width) as i64,
                inputs@,
            ),
            r.events@.len() == r.contacts@.len(),
            forall|i: int| 0 <= i < r.events@.len() ==> in_travel(#[trigger] r.events@[i]),
            forall|i: int|
                0 <= i < r.shown@.len() ==> MIN_X <= (#[trigger] r.shown@[i]).1 <= MAX_X
                    - r.shown@[i].2,
    {
        let left: i64 = self.top_left_x as i64;
        let right: i64 = left + self.width as i64;
        Track::run(user_x, self.material, self.duration, left, right, inputs)
    }
}

impl Slide for Slider {
    open spec fn number(&self) -> u32 {
        8
    }

    fn page(&self) -> (r: u32) {
        msg::slider_num()
    }
}

/// Tap page of the survey: the user taps where the target is.
pub struct Tap {
    /// material index
    pub material: u32,
    /// seconds for which the slide runs
    pub duration: u64,
    pub tolerance: i32,
    /// left edge of the pad
    pub top_left_x: i32,
    /// top edge of the pad
    pub top_left_y: i32,
    /// width of the pad
    pub width: i32,
    /// height of the pad
    pub height: i32,
}

impl Tap {
    pub fn new(
        material: u32,
        duration: u64,
        tolerance: i32,
        top_left_x: i32,
        top_left_y: i32,
        width: i32,
        height: i32,
    ) -> (r: Self)
        ensures
            r == (Tap { material, duration, tolerance, top_left_x, top_left_y, width, height }),
    {
        Tap {
            material: material,
            duration: duration,
            tolerance: tolerance,
            top_left_x: top_left_x,
            top_left_y: top_left_y,
            width: width,
            height: height,
        }
    }

    /// The messages that open the slide.
    pub fn opening(&self) -> (r: Vec<Message>)
        ensures
            r@.len() == 2,
            msg::is_material_index(r@[0], self.material, 9),
            msg::is_goto(r@[1], 9),
    {
        let mut out: Vec<Message> = Vec::new();
        out.push(msg::materialIndex(self.material, msg::tap_num()));
        out.push(msg::gotoTap());
        out
    }

    /// A first place for the user's mark, drawn at random.
    pub fn draw_user_x() -> (r: i64)
        ensures
            MIN_X <= r < MAX_X - USER_X_SIZE,
    {
        random_between(MIN_X as i64, (MAX_X - USER_X_SIZE) as i64)
    }

    /// Whether the slide has run out at `now`.
    pub fn expired(&self, now: u64) -> (r: bool)
        ensures
            r == run_out(self.duration, now),
    {
        now / 1000 >= self.duration
    }

    /// The progress at the start.
    pub fn begin(&self, user_x: i64) -> (r: Track)
        ensures
            r@ == track_start(user_x),
            r.wf(),
    {
        Track::start(user_x)
    }

    /// Takes one sample from the sensor, whose position is `x`; says whether
    /// it was of this slide's material.
    pub fn on_sample(&self, run: &mut Track, now: u64, sample: SenselMessage, x: i64) -> (taken:
        bool)
        requires
            old(run).wf(),
        ensures
            final(run)@ == track_step(
                old(run)@,
                self.material,
                self.top_left_x as i64,
                (self.top_left_x + self.width) as i64,
                now,
                sample,
                x,
            ),
            final(run).wf(),
            taken == (sample.4 == self.material),
    {
        let left: i64 = self.top_left_x as i64;
        let right: i64 = left + self.width as i64;
        run.on_sample(self.material, left, right, now, sample, x)
    }
}

impl Tap {
    /// Runs the slide over its inputs, in the order in which they came, with
    /// the user's mark first at `user_x`, until the slide's time has run out
    /// or no input is left. Every event on record and every target shown
    /// lies within the travel.
    pub fn run(&self, user_x: i64, inputs: &Vec<TrackInput>) -> (r: TrackRecord)
        ensures
            records_run(
                r,
                user_x,
                self.material,
                self.duration,
                self.top_left_x as i64,
                (self.top_left_x + self.width) as i64,
                inputs@,
            ),
            r.events@.len() == r.contacts@.len(),
            forall|i: int| 0 <= i < r.events@.len() ==> in_travel(#[trigger] r.events@[i]),
            forall|i: int|
                0 <= i < r.shown@.len() ==> MIN_X <= (#[trigger] r.shown@[i]).1 <= MAX_X
                    - r.shown@[i].2,
    {
        let left: i64 = self.top_left_x as i64;
        let right: i64 = left + self.width as i64;
        Track::run(user_x, self.material, self.duration, left, right, inputs)
    }
}

impl Slide for Tap {
    open spec fn number(&self) -> u32 {
        9
    }

    fn page(&self) -> (r: u32) {
        msg::tap_num()
    }
}

//-----------------------------------------------------------------------------
// The slides of a session, in their order
//-----------------------------------------------------------------------------

/// A slide of any kind.
pub enum Stage {
    FrontMatter(FrontMatter),
    Consent(Consent),
    Likert(Likert),
    Press(Press),
    Slider(Slider),
    Tap(Tap),
    Response(Response),
}

impl Slide for Stage {
    open spec fn number(&self) -> u32 {
        match self {
            Stage::FrontMatter(s) => s.number(),
            Stage::Consent(s) => s.number(),
            Stage::Likert(s) => s.number(),
            Stage::Press(s) => s.number(),
            Stage::Slider(s) => s.number(),
            Stage::Tap(s) => s.number(),
            Stage::Response(s) => s.number(),
        }
    }

    fn page(&self) -> (r: u32) {
        match self {
            Stage::FrontMatter(s) => s.page(),
            Stage::Consent(s) => s.page(),
            Stage::Likert(s) => s.page(),
            Stage::Press(s) => s.page(),
            Stage::Slider(s) => s.page(),
            Stage::Tap(s) => s.page(),
            Stage::Response(s) => s.page(),
        }
    }
}

/// The slides of a session in the order in which they run, and the number
/// of those that have run to their end.
pub struct Pipeline {
    pub slides: Vec<Stage>,
    pub position: usize,
}

impl Pipeline {
    /// A session before its first slide.
    pub fn new(slides: Vec<Stage>) -> (r: Self)
        ensures
            r.slides == slides,
            r.position == 0,
    {
        Pipeline { slides, position: 0 }
    }

    /// Whether every slide has run.
    pub fn finished(&self) -> (r: bool)
        ensures
            r == (self.position >= self.slides@.len()),
    {
        self.position >= self.slides.len()
    }

    /// The slide to run now; none when every slide has run.
    pub fn current(&self) -> (r: Option<&Stage>)
        ensures
            self.position < self.slides@.len() ==> r == Some(&self.slides@[self.position as int]),
            self.position >= self.slides@.len() ==> r is None,
    {
        if self.position < self.slides.len() {
            Some(&self.slides[self.position])
        } else {
            None
        }
    }

    /// The current slide has run to its end: the next one is due. The order
    /// of the slides stays, none is skipped and none comes again.
    pub fn advance(&mut self)
        ensures
            final(self).slides == old(self).slides,
            old(self).position < old(self).slides@.len() ==> final(self).position == old(self).position + 1,
            old(self).position >= old(self).slides@.len() ==> final(self).position == old(self).position,
    {
        if self.position < self.slides.len() {
            self.position = self.position + 1;
        }
    }
}

} // verus!
