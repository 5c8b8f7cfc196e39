//! A two-wire bus on plain pins: the pin movements of each byte, and the bytes
//! of each transaction.

use vstd::prelude::*;

verus! {

/// One movement on the wires. `Sample` reads the data line.
#[derive(Clone, Copy, Debug, PartialEq, Eq, Structural)]
pub enum PinStep {
    Clock(bool),
    Data(bool),
    HalfCycle,
    Sample,
}

/// A start condition: the data line falls while the clock is high.
pub open spec fn start_steps() -> Seq<PinStep> {
    seq![
        PinStep::Data(true),
        PinStep::Clock(true),
        PinStep::HalfCycle,
        PinStep::Data(false),
        PinStep::HalfCycle,
        PinStep::Clock(false),
    ]
}

/// A stop condition: the data line rises while the clock is high.
pub open spec fn stop_steps() -> Seq<PinStep> {
    seq![
        PinStep::Data(false),
        PinStep::HalfCycle,
        PinStep::Clock(true),
        PinStep::HalfCycle,
        PinStep::Data(true),
        PinStep::HalfCycle,
    ]
}

/// One bit on its way out.
pub open spec fn bit_out(bit: bool) -> Seq<PinStep> {
    seq![
        PinStep::Data(bit),
        PinStep::HalfCycle,
        PinStep::Clock(true),
        PinStep::HalfCycle,
        PinStep::Clock(false),
    ]
}

/// One bit on its way in.
pub open spec fn bit_in() -> Seq<PinStep> {
    seq![
        PinStep::Clock(true),
        PinStep::HalfCycle,
        PinStep::Sample,
        PinStep::Clock(false),
        PinStep::HalfCycle,
    ]
}

/// Bit `index` of a byte, counted from the most significant.
pub open spec fn bit_of(value: u8, index: int) -> bool {
    index == 0 && value & 0x80 != 0 || index == 1 && value & 0x40 != 0 || index == 2 && value & 0x20
        != 0 || index == 3 && value & 0x10 != 0 || index == 4 && value & 0x08 != 0 || index == 5
        && value & 0x04 != 0 || index == 6 && value & 0x02 != 0 || index == 7 && value & 0x01 != 0
}

/// The first `count` bits of a byte on their way out, most significant first.
pub open spec fn bits_out(value: u8, count: nat) -> Seq<PinStep>
    decreases count,
{
    if count == 0 {
        Seq::empty()
    } else {
        bits_out(value, (count - 1) as nat) + bit_out(bit_of(value, count - 1))
    }
}

/// `count` bits on their way in.
pub open spec fn bits_in(count: nat) -> Seq<PinStep>
    decreases count,
{
    if count == 0 {
        Seq::empty()
    } else {
        bits_in((count - 1) as nat) + bit_in()
    }
}

/// The acknowledge bit behind a byte that was sent.
pub open spec fn acknowledge_in() -> Seq<PinStep> {
    seq![
        PinStep::Data(true),
        PinStep::HalfCycle,
        PinStep::Clock(true),
        PinStep::HalfCycle,
        PinStep::Sample,
        PinStep::Clock(false),
    ]
}

/// The acknowledge bit behind a byte that was received.
pub open spec fn acknowledge_out(acknowledge: bool) -> Seq<PinStep> {
    bit_out(!acknowledge).push(PinStep::Data(true))
}

/// A byte on its way out, and its acknowledge bit.
pub open spec fn byte_out(value: u8) -> Seq<PinStep> {
    bits_out(value, 8) + acknowledge_in()
}

/// A byte on its way in, and its acknowledge bit.
pub open spec fn byte_in(acknowledge: bool) -> Seq<PinStep> {
    seq![PinStep::Data(true)] + bits_in(8) + acknowledge_out(acknowledge)
}

fn push_bit_out(steps: &mut Vec<PinStep>, bit: bool)
    ensures
        final(steps)@ == old(steps)@ + bit_out(bit),
{
    steps.push(PinStep::Data(bit));
    steps.push(PinStep::HalfCycle);
    steps.push(PinStep::Clock(true));
    steps.push(PinStep::HalfCycle);
    steps.push(PinStep::Clock(false));
    assert(steps@ =~= old(steps)@ + bit_out(bit));
}

pub fn start() -> (steps: Vec<PinStep>)
    ensures
        steps@ == start_steps(),
{
    let steps = vec![
        PinStep::Data(true),
        PinStep::Clock(true),
        PinStep::HalfCycle,
        PinStep::Data(false),
        PinStep::HalfCycle,
        PinStep::Clock(false),
    ];
    assert(steps@ =~= start_steps());
    steps
}

pub fn stop() -> (steps: Vec<PinStep>)
    ensures
        steps@ == stop_steps(),
{
    let steps = vec![
        PinStep::Data(false),
        PinStep::HalfCycle,
        PinStep::Clock(true),
        PinStep::HalfCycle,
        PinStep::Data(true),
        PinStep::HalfCycle,
    ];
    assert(steps@ =~= stop_steps());
    steps
}

/// The movements that send a byte. The one sample among them is low when the
/// byte was acknowledged.
pub fn write_byte(value: u8) -> (steps: Vec<PinStep>)
    ensures
        steps@ == byte_out(value),
{
    let mut steps: Vec<PinStep> = Vec::new();
    proof {
        reveal_with_fuel(bits_out, 9);
    }
    assert(steps@ =~= bits_out(value, 0));
    push_bit_out(&mut steps, value & 0x80 != 0);
    push_bit_out(&mut steps, value & 0x40 != 0);
    push_bit_out(&mut steps, value & 0x20 != 0);
    push_bit_out(&mut steps, value & 0x10 != 0);
    push_bit_out(&mut steps, value & 0x08 != 0);
    push_bit_out(&mut steps, value & 0x04 != 0);
    push_bit_out(&mut steps, value & 0x02 != 0);
    push_bit_out(&mut steps, value & 0x01 != 0);
    assert(steps@ == bits_out(value, 8));
    steps.push(PinStep::Data(true));
    steps.push(PinStep::HalfCycle);
    steps.push(PinStep::Clock(true));
    steps.push(PinStep::HalfCycle);
    steps.push(PinStep::Sample);
    steps.push(PinStep::Clock(false));
    assert(steps@ =~= byte_out(value));
    steps
}

/// The movements that receive a byte. Its bits are the eight samples among
/// them.
pub fn read_byte(acknowledge: bool) -> (steps: Vec<PinStep>)
    ensures
        steps@ == byte_in(acknowledge),
{
    let mut steps: Vec<PinStep> = Vec::new();
    steps.push(PinStep::Data(true));
    let mut count: u8 = 0;
    assert(steps@ =~= seq![PinStep::Data(true)] + bits_in(0));
    while count < 8
        invariant
            count <= 8,
            steps@ == seq![PinStep::Data(true)] + bits_in(count as nat),
        decreases 8 - count,
    {
        let ghost before = steps@;
        steps.push(PinStep::Clock(true));
        steps.push(PinStep::HalfCycle);
        steps.push(PinStep::Sample);
        steps.push(PinStep::Clock(false));
        steps.push(PinStep::HalfCycle);
        count = count + 1;
        assert(steps@ =~= before + bit_in());
        assert(steps@ =~= seq![PinStep::Data(true)] + bits_in(count as nat));
    }
    push_bit_out(&mut steps, !acknowledge);
    steps.push(PinStep::Data(true));
    assert(steps@ =~= byte_in(acknowledge));
    steps
}

/// The byte whose bits arrive most significant first.
pub open spec fn byte_of(samples: Seq<bool>) -> int
    decreases samples.len(),
{
    if samples.len() == 0 {
        0
    } else {
        2 * byte_of(samples.drop_last()) + (if samples.last() {
            1int
        } else {
            0int
        })
    }
}

/// Eight bits make a byte.
pub proof fn lemma_byte_of_bound(samples: Seq<bool>)
    ensures
        0 <= byte_of(samples) < vstd::arithmetic::power2::pow2(samples.len()),
    decreases samples.len(),
{
    vstd::arithmetic::power2::lemma2_to64();
    if samples.len() > 0 {
        lemma_byte_of_bound(samples.drop_last());
        vstd::arithmetic::power2::lemma_pow2_unfold(samples.len());
    }
}

/// Puts received bits together.
pub fn sampled_byte(samples: &Vec<bool>) -> (value: u8)
    requires
        samples@.len() == 8,
    ensures
        value as int == byte_of(samples@),
{
    let mut value: u8 = 0;
    let mut index: usize = 0;
    assert(samples@.take(0) =~= Seq::<bool>::empty());
    while index < 8
        invariant
            index <= 8,
            samples@.len() == 8,
            value as int == byte_of(samples@.take(index as int)),
        decreases 8 - index,
    {
        proof {
            let next = samples@.take(index + 1);
            assert(next.drop_last() =~= samples@.take(index as int));
            assert(next.last() == samples@[index as int]);
            lemma_byte_of_bound(next);
            vstd::arithmetic::power2::lemma2_to64();
            if index < 7 {
                vstd::arithmetic::power2::lemma_pow2_strictly_increases(
                    (index + 1) as nat,
                    8,
                );
            }
            assert(byte_of(next) < 256);
        }
        let bit: u8 = if samples[index] {
            1
        } else {
            0
        };
        value = 2 * value + bit;
        index = index + 1;
    }
    assert(samples@.take(8) =~= samples@);
    value
}

/// The bits of a byte, as a device sends them.
pub open spec fn bits_of(value: u8) -> Seq<bool> {
    Seq::new(8, |i: int| bit_of(value, i))
}

/// What a device sends bit by bit is received as the byte that it is.
pub proof fn a_byte_survives_the_wire(value: u8)
    ensures
        byte_of(bits_of(value)) == value,
{
    let bits = bits_of(value);
    let weigh = |bit: bool, weight: int|
        if bit {
            weight
        } else {
            0
        };
    let b7 = bits.drop_last();
    let b6 = b7.drop_last();
    let b5 = b6.drop_last();
    let b4 = b5.drop_last();
    let b3 = b4.drop_last();
    let b2 = b3.drop_last();
    let b1 = b2.drop_last();
    assert(b1.drop_last() =~= Seq::<bool>::empty());
    reveal_with_fuel(byte_of, 9);
    assert(byte_of(bits) == weigh(bit_of(value, 0), 128) + weigh(bit_of(value, 1), 64) + weigh(
        bit_of(value, 2),
        32,
    ) + weigh(bit_of(value, 3), 16) + weigh(bit_of(value, 4), 8) + weigh(bit_of(value, 5), 4)
        + weigh(bit_of(value, 6), 2) + weigh(bit_of(value, 7), 1));
    assert(value == (value & 0x80) + (value & 0x40) + (value & 0x20) + (value & 0x10) + (value
        & 0x08) + (value & 0x04) + (value & 0x02) + (value & 0x01)) by (bit_vector);
    assert((value & 0x80 == 0 || value & 0x80 == 128) && (value & 0x40 == 0 || value & 0x40 == 64)
        && (value & 0x20 == 0 || value & 0x20 == 32) && (value & 0x10 == 0 || value & 0x10 == 16)
        && (value & 0x08 == 0 || value & 0x08 == 8) && (value & 0x04 == 0 || value & 0x04 == 4) && (
    value & 0x02 == 0 || value & 0x02 == 2) && (value & 0x01 == 0 || value & 0x01 == 1))
        by (bit_vector);
}

/// One phase of a transaction.
#[derive(Clone, Copy, Debug, PartialEq, Eq, Structural)]
pub enum BusPhase {
    Start,
    Write(u8),
    Read { acknowledge: bool },
    Stop,
}

/// How a phase went: a byte that was received, or whether the byte that was
/// sent was acknowledged.
#[derive(Clone, Copy, Debug, PartialEq, Eq, Structural)]
pub enum PhaseReply {
    Done,
    Acknowledged(bool),
    Received(u8),
}

/// A transaction on the bus. `persistent` is true of one that keeps sending
/// its values although a byte was not acknowledged.
pub struct Transaction {
    pub script: Vec<BusPhase>,
    pub at: usize,
    pub persistent: bool,
    pub acknowledged: bool,
    pub values: Vec<u8>,
}

/// What a transaction stands for.
pub struct TransactionModel {
    pub script: Seq<BusPhase>,
    pub at: int,
    pub persistent: bool,
    pub acknowledged: bool,
    pub values: Seq<u8>,
}

/// The address byte of a write.
pub open spec fn write_address(address: u8) -> u8 {
    address << 1
}

/// The address byte of a read.
pub open spec fn read_address(address: u8) -> u8 {
    (address << 1) | 1
}

/// Bytes on their way out.
pub open spec fn writes_of(bytes: Seq<u8>) -> Seq<BusPhase> {
    Seq::new(bytes.len(), |i: int| BusPhase::Write(bytes[i]))
}

/// Bytes on their way in: all but the last are acknowledged.
pub open spec fn reads_of(count: nat) -> Seq<BusPhase> {
    Seq::new(count, |i: int| BusPhase::Read { acknowledge: i + 1 != count })
}

/// A register is selected, and `count` bytes are read from there.
pub open spec fn read_script(address: u8, register: u8, count: nat) -> Seq<BusPhase> {
    seq![
        BusPhase::Start,
        BusPhase::Write(write_address(address)),
        BusPhase::Write(register),
        BusPhase::Start,
        BusPhase::Write(read_address(address)),
    ] + reads_of(count) + seq![BusPhase::Stop]
}

/// Bytes are sent to a device.
pub open spec fn write_script(address: u8, bytes: Seq<u8>) -> Seq<BusPhase> {
    seq![BusPhase::Start, BusPhase::Write(write_address(address))] + writes_of(bytes) + seq![
        BusPhase::Stop,
    ]
}

impl TransactionModel {
    pub open spec fn begun(script: Seq<BusPhase>, persistent: bool) -> Self {
        TransactionModel {
            script,
            at: 0,
            persistent,
            acknowledged: true,
            values: Seq::empty(),
        }
    }

    /// Where a transaction goes on when a byte was not acknowledged: at its
    /// stop condition, or, where it is persistent, with its values.
    pub open spec fn after_refusal(self) -> int {
        if !self.persistent {
            self.script.len() - 1
        } else if self.at == 1 && self.script.len() > 3 {
            3
        } else {
            self.at + 1
        }
    }

    /// The transaction after its next phase was answered.
    pub open spec fn answered(self, reply: PhaseReply) -> Self {
        if self.at >= self.script.len() {
            self
        } else {
            match self.script[self.at] {
                BusPhase::Write(_) => if reply == PhaseReply::Acknowledged(true) {
                    TransactionModel { at: self.at + 1, ..self }
                } else {
                    TransactionModel { at: self.after_refusal(), acknowledged: false, ..self }
                },
                BusPhase::Read { acknowledge: _ } => TransactionModel {
                    at: self.at + 1,
                    values: self.values.push(
                        match reply {
                            PhaseReply::Received(value) => value,
                            _ => 0xff,
                        },
                    ),
                    ..self
                },
                _ => TransactionModel { at: self.at + 1, ..self },
            }
        }
    }

    /// A script is there, and it ends with a stop condition. A persistent one
    /// names a register.
    pub open spec fn wf(self) -> bool {
        &&& self.script.len() >= 2
        &&& self.script.last() == BusPhase::Stop
        &&& forall|i: int|
            0 <= i < self.script.len() - 1 ==> #[trigger] self.script[i] != BusPhase::Stop
        &&& 0 <= self.at <= self.script.len()
        &&& self.persistent ==> self.script.len() >= 4
    }
}

impl Transaction {
    pub open spec fn model(&self) -> TransactionModel {
        TransactionModel {
            script: self.script@,
            at: self.at as int,
            persistent: self.persistent,
            acknowledged: self.acknowledged,
            values: self.values@,
        }
    }

    fn begin(script: Vec<BusPhase>, persistent: bool) -> (transaction: Self)
        ensures
            transaction.model() == TransactionModel::begun(script@, persistent),
    {
        let transaction = Transaction {
            script,
            at: 0,
            persistent,
            acknowledged: true,
            values: Vec::new(),
        };
        assert(transaction.model().values =~= Seq::empty());
        transaction
    }

    pub fn read_registers(address: u8, register: u8, count: usize) -> (transaction: Self)
        ensures
            transaction.model() == TransactionModel::begun(
                read_script(address, register, count as nat),
                false,
            ),
            transaction.model().wf(),
    {
        let mut script: Vec<BusPhase> = Vec::new();
        script.push(BusPhase::Start);
        script.push(BusPhase::Write(address << 1));
        script.push(BusPhase::Write(register));
        script.push(BusPhase::Start);
        script.push(BusPhase::Write((address << 1) | 1));
        let ghost head = script@;
        let mut index: usize = 0;
        while index < count
            invariant
                index <= count,
                script@ == head + reads_of(count as nat).take(index as int),
            decreases count - index,
        {
            script.push(BusPhase::Read { acknowledge: index + 1 != count });
            index = index + 1;
            assert(script@ =~= head + reads_of(count as nat).take(index as int));
        }
        script.push(BusPhase::Stop);
        assert(script@ =~= read_script(address, register, count as nat));
        Transaction::begin(script, false)
    }

    pub fn read_register(address: u8, register: u8) -> (transaction: Self)
        ensures
            transaction.model() == TransactionModel::begun(
                read_script(address, register, 1),
                false,
            ),
            transaction.model().wf(),
    {
        Transaction::read_registers(address, register, 1)
    }

    fn push_writes(script: &mut Vec<BusPhase>, bytes: &[u8])
        ensures
            final(script)@ == old(script)@ + writes_of(bytes@),
    {
        let ghost head = script@;
        let mut index: usize = 0;
        assert(script@ =~= head + writes_of(bytes@).take(0));
        while index < bytes.len()
            invariant
                index <= bytes@.len(),
                script@ == head + writes_of(bytes@).take(index as int),
            decreases bytes@.len() - index,
        {
            script.push(BusPhase::Write(bytes[index]));
            index = index + 1;
            assert(script@ =~= head + writes_of(bytes@).take(index as int));
        }
        assert(script@ =~= head + writes_of(bytes@));
    }

    pub fn write_bytes(address: u8, bytes: &[u8]) -> (transaction: Self)
        ensures
            transaction.model() == TransactionModel::begun(write_script(address, bytes@), false),
            transaction.model().wf(),
    {
        let mut script: Vec<BusPhase> = Vec::new();
        script.push(BusPhase::Start);
        script.push(BusPhase::Write(address << 1));
        Transaction::push_writes(&mut script, bytes);
        script.push(BusPhase::Stop);
        assert(script@ =~= write_script(address, bytes@));
        Transaction::begin(script, false)
    }

    pub fn write_register(address: u8, register: u8, value: u8) -> (transaction: Self)
        ensures
            transaction.model() == TransactionModel::begun(
                write_script(address, seq![register, value]),
                false,
            ),
            transaction.model().wf(),
    {
        let bytes: [u8; 2] = [register, value];
        assert(bytes@ =~= seq![register, value]);
        Transaction::write_bytes(address, &bytes)
    }

    /// Sends values to consecutive registers. A byte that is not acknowledged
    /// does not stop the values that follow.
    pub fn write_registers(address: u8, register: u8, values: &[u8]) -> (transaction: Self)
        ensures
            transaction.model() == TransactionModel::begun(
                write_script(address, seq![register] + values@),
                true,
            ),
            transaction.model().wf(),
    {
        let mut script: Vec<BusPhase> = Vec::new();
        script.push(BusPhase::Start);
        script.push(BusPhase::Write(address << 1));
        script.push(BusPhase::Write(register));
        Transaction::push_writes(&mut script, values);
        script.push(BusPhase::Stop);
        assert(script@ =~= write_script(address, seq![register] + values@));
        Transaction::begin(script, true)
    }

    /// What the bus has to do next; nothing when the transaction is over.
    pub fn next_phase(&self) -> (phase: Option<BusPhase>)
        requires
            self.model().wf(),
        ensures
            phase == (if self.model().at < self.script@.len() {
                Some(self.script@[self.at as int])
            } else {
                None
            }),
    {
        if self.at < self.script.len() {
            Some(self.script[self.at])
        } else {
            None
        }
    }

    /// Takes in how the phase went.
    pub fn answer(&mut self, reply: PhaseReply)
        requires
            old(self).model().wf(),
        ensures
            final(self).model() == old(self).model().answered(reply),
            final(self).model().wf(),
    {
        if self.at >= self.script.len() {
            return;
        }
        match self.script[self.at] {
            BusPhase::Write(_) => {
                if reply == PhaseReply::Acknowledged(true) {
                    self.at = self.at + 1;
                } else {
                    self.acknowledged = false;
                    if !self.persistent {
                        self.at = self.script.len() - 1;
                    } else if self.at == 1 && self.script.len() > 3 {
                        self.at = 3;
                    } else {
                        self.at = self.at + 1;
                    }
                }
            },
            BusPhase::Read { acknowledge: _ } => {
                let value: u8 = match reply {
                    PhaseReply::Received(value) => value,
                    _ => 0xff,
                };
                self.values.push(value);
                self.at = self.at + 1;
            },
            _ => {
                self.at = self.at + 1;
            },
        }
    }

    /// The outcome of a transaction that is over: the bytes that were read, or
    /// nothing where a byte was not acknowledged.
    pub fn outcome(self) -> (values: Option<Vec<u8>>)
        ensures
            values is Some <==> self.acknowledged,
            values matches Some(found) ==> found@ == self.values@,
    {
        if self.acknowledged {
            Some(self.values)
        } else {
            None
        }
    }
}

/// However a transaction goes, it is only over once the bus was released: its
/// last phase is the stop condition, and no step skips it.
pub proof fn every_transaction_ends_with_a_stop(before: TransactionModel, reply: PhaseReply)
    requires
        before.wf(),
        before.at < before.script.len(),
    ensures
        before.answered(reply).wf(),
        before.answered(reply).at == before.script.len() ==> before.script[before.at]
            == BusPhase::Stop,
{
}

/// A transaction always gets on: each answer brings it closer to its end.
pub proof fn every_answer_gets_on(before: TransactionModel, reply: PhaseReply)
    requires
        before.wf(),
        before.at < before.script.len(),
    ensures
        before.at < before.answered(reply).at <= before.script.len(),
{
}

/// The temperature of a TMP1075 result register, in sixteenths of a degree:
/// its upper twelve bits, as a signed number.
pub open spec fn tmp1075_sixteenths(msb: u8, lsb: u8) -> int {
    let raw = msb * 0x100 + lsb;
    (if raw >= 0x8000 {
        raw - 0x1_0000
    } else {
        raw
    }) / 16
}

/// The address of the temperature sensor.
pub const TMP1075_ADDRESS: u8 = 0x48;

/// The transaction that reads the temperature sensor.
pub fn read_tmp1075() -> (transaction: Transaction)
    ensures
        transaction.model() == TransactionModel::begun(
            read_script(TMP1075_ADDRESS, 0, 2),
            false,
        ),
        transaction.model().wf(),
{
    Transaction::read_registers(TMP1075_ADDRESS, 0, 2)
}

/// The temperature in what the sensor answered.
pub fn tmp1075_temperature(answer: &Option<Vec<u8>>) -> (temperature: Option<i16>)
    requires
        answer matches Some(values) ==> values@.len() == 2,
    ensures
        temperature is Some <==> answer is Some,
        temperature matches Some(found) ==> found == tmp1075_sixteenths(
            answer->Some_0@[0],
            answer->Some_0@[1],
        ),
{
    match answer {
        Some(values) => {
            let raw: i32 = values[0] as i32 * 0x100 + values[1] as i32;
            let wrapped: i32 = if raw >= 0x8000 {
                raw
            } else {
                raw + 0x1_0000
            };
            Some((wrapped / 16 - 0x1000) as i16)
        },
        None => None,
    }
}

} // verus!
