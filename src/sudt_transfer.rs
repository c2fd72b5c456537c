//! A token-transfer application on top of the packet protocol: the lock that
//! holds transferred tokens, and the checks it makes on each packet.

use crate::records::bytes_equal;
use vstd::prelude::*;
use vstd::utf8::encode_utf8;

verus! {

/// Why the token lock rejected a transaction; each reason has a stable code.
#[derive(Clone, Copy, Debug, PartialEq, Eq, Structural)]
pub enum Error {
    IndexOutOfBound,
    ItemMissing,
    LengthNotEnough,
    Encoding,
    InvalidArgs,
    InvalidMsgType,
    Input,
    Output,
    PacketData,
    SudtAmount,
    Denom,
    InvalidAck,
    SenderReceiver,
    Ics,
}

pub open spec fn transfer_error_code(e: Error) -> u8 {
    match e {
        Error::IndexOutOfBound => 1,
        Error::ItemMissing => 2,
        Error::LengthNotEnough => 3,
        Error::Encoding => 4,
        Error::InvalidArgs => 5,
        Error::InvalidMsgType => 6,
        Error::Input => 7,
        Error::Output => 8,
        Error::PacketData => 9,
        Error::SudtAmount => 10,
        Error::Denom => 11,
        Error::InvalidAck => 12,
        Error::SenderReceiver => 13,
        Error::Ics => 20,
    }
}

impl Error {
    pub fn code(&self) -> (r: u8)
        ensures
            r == transfer_error_code(*self),
    {
        match self {
            Error::IndexOutOfBound => 1,
            Error::ItemMissing => 2,
            Error::LengthNotEnough => 3,
            Error::Encoding => 4,
            Error::InvalidArgs => 5,
            Error::InvalidMsgType => 6,
            Error::Input => 7,
            Error::Output => 8,
            Error::PacketData => 9,
            Error::SudtAmount => 10,
            Error::Denom => 11,
            Error::InvalidAck => 12,
            Error::SenderReceiver => 13,
            Error::Ics => 20,
        }
    }
}

/// Fails with `error` unless `cond` holds.
pub fn ensure(cond: bool, error: Error) -> (r: Result<(), Error>)
    ensures
        r == (if cond {
            Ok::<(), Error>(())
        } else {
            Err(error)
        }),
{
    if !cond {
        Err(error)
    } else {
        Ok(())
    }
}

/// Size of the lock's arguments: client id, channel id, two code hashes.
pub const ARGS_LEN: usize = 98;

/// The arguments of the token lock.
#[derive(Clone, Copy, Debug)]
pub struct Args {
    pub client_id: [u8; 32],
    pub channel_id: u16,
    pub channel_contract_code_hash: [u8; 32],
    pub packet_contract_code_hash: [u8; 32],
}

/// The layout of the arguments: client id, channel id as two big-endian
/// bytes, then the channel and the packet contracts' code hashes.
pub open spec fn args_bytes(a: Args) -> Seq<u8> {
    a.client_id@ + seq![(a.channel_id / 256) as u8, (a.channel_id % 256) as u8]
        + a.channel_contract_code_hash@ + a.packet_contract_code_hash@
}

fn copy_hash(b: &[u8], from: usize) -> (r: [u8; 32])
    requires
        from + 32 <= b@.len(),
    ensures
        r@ == b@.subrange(from as int, from + 32),
{
    let n = b.len();
    let mut r: [u8; 32] = [0u8; 32];
    let mut i: usize = 0;
    while i < 32
        invariant
            n == b@.len(),
            from + 32 <= b@.len(),
            i <= 32,
            r@.len() == 32,
            forall|j: int| 0 <= j < i ==> r@[j] == b@[from + j],
        decreases 32 - i,
    {
        r[i] = b[from + i];
        i = i + 1;
    }
    assert(r@ =~= b@.subrange(from as int, from + 32));
    r
}

fn push_all(out: &mut Vec<u8>, tail: &[u8])
    ensures
        final(out)@ == old(out)@ + tail@,
{
    let mut i: usize = 0;
    while i < tail.len()
        invariant
            i <= tail@.len(),
            out@ == old(out)@ + tail@.subrange(0, i as int),
        decreases tail@.len() - i,
    {
        out.push(tail[i]);
        i = i + 1;
    }
    assert(tail@.subrange(0, tail@.len() as int) =~= tail@);
}

impl Args {
    /// Reads the arguments; they must be exactly `ARGS_LEN` bytes long.
    pub fn decode(args: &[u8]) -> (r: Result<Args, Error>)
        ensures
            r is Ok <==> args@.len() == ARGS_LEN,
            r matches Ok(a) ==> args_bytes(a) == args@,
            r matches Err(e) ==> e == Error::InvalidArgs,
    {
        if args.len() != ARGS_LEN {
            return Err(Error::InvalidArgs);
        }
        let client_id = copy_hash(args, 0);
        let channel_id = (args[32] as u16) * 256 + args[33] as u16;
        let channel_contract_code_hash = copy_hash(args, 34);
        let packet_contract_code_hash = copy_hash(args, 66);
        let a = Args {
            client_id,
            channel_id,
            channel_contract_code_hash,
            packet_contract_code_hash,
        };
        assert(args_bytes(a) =~= args@);
        Ok(a)
    }

    /// Writes the arguments in the layout that `decode` reads.
    pub fn encode(&self) -> (r: Vec<u8>)
        ensures
            r@ == args_bytes(*self),
    {
        let mut r: Vec<u8> = Vec::new();
        push_all(&mut r, &self.client_id);
        r.push((self.channel_id / 256) as u8);
        r.push((self.channel_id % 256) as u8);
        push_all(&mut r, &self.channel_contract_code_hash);
        push_all(&mut r, &self.packet_contract_code_hash);
        assert(r@ =~= args_bytes(*self));
        r
    }
}

/// Encoding then decoding gives the arguments back.
pub proof fn args_round_trip(a: Args)
    ensures
        args_bytes(a).len() == ARGS_LEN,
        forall|b: Args| args_bytes(b) == args_bytes(a) ==> b == a,
{
    assert forall|b: Args| args_bytes(b) == args_bytes(a) implies b == a by {
        let s = args_bytes(a);
        assert(b.client_id@ =~= s.subrange(0, 32));
        assert(a.client_id@ =~= s.subrange(0, 32));
        assert(b.channel_contract_code_hash@ =~= s.subrange(34, 66));
        assert(a.channel_contract_code_hash@ =~= s.subrange(34, 66));
        assert(b.packet_contract_code_hash@ =~= s.subrange(66, 98));
        assert(a.packet_contract_code_hash@ =~= s.subrange(66, 98));
        assert(s[32] == (b.channel_id / 256) as u8 && s[33] == (b.channel_id % 256) as u8);
        assert(b.client_id == a.client_id);
        assert(b.channel_contract_code_hash == a.channel_contract_code_hash);
        assert(b.packet_contract_code_hash == a.packet_contract_code_hash);
    }
}

/// The payload of a transfer packet.
#[derive(Clone, Debug)]
pub struct FungibleTokenPacketData {
    /// Hex of the token's type script hash, possibly prefixed by its path.
    pub denom: String,
    /// Token amount.
    pub amount: u64,
    /// Sending address: the first 20 bytes of a lock script hash.
    pub sender: Vec<u8>,
    /// Receiving address: the first 20 bytes of a lock script hash.
    pub receiver: Vec<u8>,
}

/// The token lock's own cell: the token's type hash and the amounts it held
/// before and holds after the transaction.
#[derive(Clone, Copy, Debug)]
pub struct SudtIo {
    pub type_script_hash: [u8; 32],
    pub input_amount: u128,
    pub output_amount: u128,
}

/// The channel input is not constrained yet.
pub fn verify_channel_input(_args: &Args) -> (r: Result<(), Error>)
    ensures
        r is Ok,
{
    Ok(())
}

/// The packet input is not constrained yet.
pub fn verify_packet_input(_args: &Args) -> (r: Result<(), Error>)
    ensures
        r is Ok,
{
    Ok(())
}

pub open spec fn is_hex_digit(c: u8) -> bool {
    (0x30 <= c <= 0x39) || (0x41 <= c <= 0x46) || (0x61 <= c <= 0x66)
}

pub open spec fn hex_value(c: u8) -> int {
    if 0x30 <= c <= 0x39 {
        c - 0x30
    } else if 0x41 <= c <= 0x46 {
        c - 0x41 + 10
    } else {
        c - 0x61 + 10
    }
}

/// `s` spells `n` bytes in hexadecimal.
pub open spec fn is_hex_of(s: Seq<u8>, n: nat) -> bool {
    s.len() == 2 * n && forall|i: int| 0 <= i < s.len() ==> is_hex_digit(#[trigger] s[i])
}

/// The bytes that the hexadecimal text `s` spells.
pub open spec fn hex_decoded(s: Seq<u8>) -> Seq<u8> {
    Seq::new(s.len() / 2, |i: int| (hex_value(s[2 * i]) * 16 + hex_value(s[2 * i + 1])) as u8)
}

/// Relies on hex::decode_to_slice: it fills the 32-byte buffer from exactly 64
/// hexadecimal digits of either case, and fails otherwise.
#[verifier::external_body]
fn hex_decode_32(text: &[u8]) -> (r: Option<[u8; 32]>)
    ensures
        r.is_some() == is_hex_of(text@, 32),
        r matches Some(out) ==> out@ == hex_decoded(text@),
{
    let mut out = [0u8; 32];
    match hex::decode_to_slice(text, &mut out) {
        Ok(()) => Some(out),
        Err(_) => None,
    }
}

pub open spec fn type_and_denom(type_script_hash: Seq<u8>, denom: Seq<u8>) -> Result<(), Error> {
    if !is_hex_of(denom, 32) {
        Err(Error::SudtAmount)
    } else if hex_decoded(denom) != type_script_hash {
        Err(Error::Denom)
    } else {
        Ok(())
    }
}

/// The denomination must be the hex of the token's type script hash.
pub fn verify_sudt_type_and_denom(type_script_hash: &[u8; 32], denom: &[u8]) -> (r: Result<
    (),
    Error,
>)
    ensures
        r == type_and_denom(type_script_hash@, denom@),
{
    let out = match hex_decode_32(denom) {
        Some(out) => out,
        None => return Err(Error::SudtAmount),
    };
    ensure(bytes_equal(&out, type_script_hash), Error::Denom)
}

pub open spec fn address_in(address: Seq<u8>, lock_hashes: Seq<[u8; 32]>) -> bool {
    exists|i: int| 0 <= i < lock_hashes.len() && #[trigger] lock_hashes[i]@.take(20) == address
}

pub open spec fn sender_or_receiver(address: Seq<u8>, lock_hashes: Seq<[u8; 32]>) -> Result<
    (),
    Error,
> {
    if address.len() == 20 && address_in(address, lock_hashes) {
        Ok(())
    } else {
        Err(Error::SenderReceiver)
    }
}

/// An address is 20 bytes, and some consumed cell's lock hash must start with it.
pub fn verify_ckb_sender_or_receiver(address: &[u8], input_lock_hashes: &Vec<[u8; 32]>) -> (r:
    Result<(), Error>)
    ensures
        r == sender_or_receiver(address@, input_lock_hashes@),
{
    if address.len() != 20 {
        return Err(Error::SenderReceiver);
    }
    let mut i: usize = 0;
    while i < input_lock_hashes.len()
        invariant
            address@.len() == 20,
            i <= input_lock_hashes@.len(),
            forall|j: int| 0 <= j < i ==> #[trigger] input_lock_hashes@[j]@.take(20) != address@,
        decreases input_lock_hashes@.len() - i,
    {
        let h = &input_lock_hashes[i];
        let mut k: usize = 0;
        let mut same = true;
        while k < 20
            invariant
                k <= 20,
                address@.len() == 20,
                h@.len() == 32,
                same == (forall|j: int| 0 <= j < k ==> h@[j] == address@[j]),
            decreases 20 - k,
        {
            if h[k] != address[k] {
                same = false;
            }
            k = k + 1;
        }
        if same {
            assert(h@.take(20) =~= address@);
            return Ok(());
        }
        assert(h@.take(20) != address@) by {
            if h@.take(20) == address@ {
                assert forall|j: int| 0 <= j < 20 implies h@[j] == address@[j] by {
                    assert(h@.take(20)[j] == h@[j]);
                }
            }
        }
        i = i + 1;
    }
    Err(Error::SenderReceiver)
}

/// `input - amount`, if it does not go below zero.
pub open spec fn after_withdrawal(input: u128, amount: u64) -> Option<u128> {
    if input >= amount {
        Some((input - amount) as u128)
    } else {
        None
    }
}

/// `input + amount`, if it fits.
pub open spec fn after_deposit(input: u128, amount: u64) -> Option<u128> {
    if input + amount <= u128::MAX {
        Some((input + amount) as u128)
    } else {
        None
    }
}

pub open spec fn is_ack(ack: Option<Vec<u8>>, value: u8) -> bool {
    ack matches Some(a) && a@ == seq![value]
}

fn ack_is(ack: &Option<Vec<u8>>, value: u8) -> (r: bool)
    ensures
        r == is_ack(*ack, value),
{
    match ack {
        Some(a) => {
            if a.len() == 1 && a[0] == value {
                assert(a@ =~= seq![value]);
                true
            } else {
                false
            }
        },
        None => false,
    }
}

/// The denomination of a token that comes back home: `port/channel/` followed
/// by the base denomination.
pub open spec fn denom_prefix(port: Seq<u8>, channel: Seq<u8>) -> Seq<u8> {
    port + seq![0x2fu8] + channel + seq![0x2fu8]
}

pub open spec fn write_ack(
    ack: Option<Vec<u8>>,
    data: FungibleTokenPacketData,
    io: SudtIo,
    port: Seq<u8>,
    channel: Seq<u8>,
    lock_hashes: Seq<[u8; 32]>,
) -> Result<(), Error> {
    let prefix = denom_prefix(port, channel);
    let denom = encode_utf8(data.denom@);
    if !is_ack(ack, 1) {
        Err(Error::InvalidAck)
    } else if after_withdrawal(io.input_amount, data.amount) != Some(io.output_amount) {
        Err(Error::SudtAmount)
    } else if !(prefix.len() <= denom.len() && denom.take(prefix.len() as int) == prefix) {
        Err(Error::Denom)
    } else if type_and_denom(io.type_script_hash@, denom.skip(prefix.len() as int)) is Err {
        type_and_denom(io.type_script_hash@, denom.skip(prefix.len() as int))
    } else {
        sender_or_receiver(data.receiver@, lock_hashes)
    }
}

fn checked_sub(input: u128, amount: u64) -> (r: Option<u128>)
    ensures
        r == after_withdrawal(input, amount),
{
    if input >= amount as u128 {
        Some(input - amount as u128)
    } else {
        None
    }
}

fn checked_add(input: u128, amount: u64) -> (r: Option<u128>)
    ensures
        r == after_deposit(input, amount),
{
    if input <= u128::MAX - amount as u128 {
        Some(input + amount as u128)
    } else {
        None
    }
}

fn is_amount(r: Option<u128>, expected: u128) -> (b: bool)
    ensures
        b == (r == Some(expected)),
{
    match r {
        Some(v) => v == expected,
        None => false,
    }
}

/// The bytes of `denom` that follow `prefix`, if it starts with it.
fn strip_prefix(denom: &[u8], prefix: &[u8]) -> (r: Option<Vec<u8>>)
    ensures
        r is Some <==> (prefix@.len() <= denom@.len() && denom@.take(prefix@.len() as int)
            == prefix@),
        r matches Some(rest) ==> rest@ == denom@.skip(prefix@.len() as int),
{
    if prefix.len() > denom.len() {
        return None;
    }
    let mut i: usize = 0;
    while i < prefix.len()
        invariant
            prefix@.len() <= denom@.len(),
            i <= prefix@.len(),
            forall|j: int| 0 <= j < i ==> denom@[j] == prefix@[j],
        decreases prefix@.len() - i,
    {
        if denom[i] != prefix[i] {
            assert(denom@.take(prefix@.len() as int)[i as int] == denom@[i as int]);
            return None;
        }
        i = i + 1;
    }
    assert(denom@.take(prefix@.len() as int) =~= prefix@);
    let mut rest: Vec<u8> = Vec::new();
    let mut k: usize = prefix.len();
    while k < denom.len()
        invariant
            prefix@.len() <= k <= denom@.len(),
            rest@ == denom@.subrange(prefix@.len() as int, k as int),
        decreases denom@.len() - k,
    {
        rest.push(denom[k]);
        k = k + 1;
    }
    Some(rest)
}

/// Receiving tokens from the counterparty: the acknowledgement must be a
/// success, the lock must release exactly the packet's amount, the packet's
/// denomination must be this chain's token behind `port/channel/`, and the
/// receiver must be among the consumed cells' locks.
pub fn verify_write_ack_packet(
    ack: &Option<Vec<u8>>,
    data: &FungibleTokenPacketData,
    io: &SudtIo,
    source_port_id: &str,
    source_channel_id: &str,
    input_lock_hashes: &Vec<[u8; 32]>,
) -> (r: Result<(), Error>)
    ensures
        r == write_ack(
            *ack,
            *data,
            *io,
            encode_utf8(source_port_id@),
            encode_utf8(source_channel_id@),
            input_lock_hashes@,
        ),
{
    ensure(ack_is(ack, 1), Error::InvalidAck)?;
    ensure(
        is_amount(checked_sub(io.input_amount, data.amount), io.output_amount),
        Error::SudtAmount,
    )?;
    let mut prefix: Vec<u8> = Vec::new();
    push_all(&mut prefix, source_port_id.as_bytes());
    prefix.push(0x2f);
    push_all(&mut prefix, source_channel_id.as_bytes());
    prefix.push(0x2f);
    assert(prefix@ =~= denom_prefix(encode_utf8(source_port_id@), encode_utf8(source_channel_id@)));
    let denom = data.denom.as_str().as_bytes();
    let base = match strip_prefix(denom, prefix.as_slice()) {
        Some(b) => b,
        None => return Err(Error::Denom),
    };
    verify_sudt_type_and_denom(&io.type_script_hash, base.as_slice())?;
    verify_ckb_sender_or_receiver(data.receiver.as_slice(), input_lock_hashes)
}

pub open spec fn send(data: FungibleTokenPacketData, io: SudtIo, lock_hashes: Seq<[u8; 32]>) -> Result<
    (),
    Error,
> {
    if after_deposit(io.input_amount, data.amount) != Some(io.output_amount) {
        Err(Error::SudtAmount)
    } else if type_and_denom(io.type_script_hash@, encode_utf8(data.denom@)) is Err {
        type_and_denom(io.type_script_hash@, encode_utf8(data.denom@))
    } else {
        sender_or_receiver(data.sender@, lock_hashes)
    }
}

/// Sending tokens to the counterparty: the lock must receive exactly the
/// packet's amount of this chain's own token (a prefixed denomination does
/// not pass), and the sender must be among the consumed cells' locks.
pub fn verify_send_packet(
    data: &FungibleTokenPacketData,
    io: &SudtIo,
    input_lock_hashes: &Vec<[u8; 32]>,
) -> (r: Result<(), Error>)
    ensures
        r == send(*data, *io, input_lock_hashes@),
{
    ensure(
        is_amount(checked_add(io.input_amount, data.amount), io.output_amount),
        Error::SudtAmount,
    )?;
    verify_sudt_type_and_denom(&io.type_script_hash, data.denom.as_str().as_bytes())?;
    verify_ckb_sender_or_receiver(data.sender.as_slice(), input_lock_hashes)
}

pub open spec fn consume_ack(
    ack: Option<Vec<u8>>,
    data: FungibleTokenPacketData,
    io: SudtIo,
    lock_hashes: Seq<[u8; 32]>,
) -> Result<(), Error> {
    if is_ack(ack, 0) {
        if sender_or_receiver(data.sender@, lock_hashes) is Err {
            sender_or_receiver(data.sender@, lock_hashes)
        } else if after_withdrawal(io.input_amount, data.amount) != Some(io.output_amount) {
            Err(Error::SudtAmount)
        } else {
            type_and_denom(io.type_script_hash@, encode_utf8(data.denom@))
        }
    } else if io.input_amount != io.output_amount {
        Err(Error::SudtAmount)
    } else {
        type_and_denom(io.type_script_hash@, encode_utf8(data.denom@))
    }
}

/// The acknowledgement of a sent packet: a failure refunds exactly the
/// packet's amount to its sender; a success leaves the lock's tokens as they
/// are.
pub fn verify_consume_ack_packet(
    ack: &Option<Vec<u8>>,
    data: &FungibleTokenPacketData,
    io: &SudtIo,
    input_lock_hashes: &Vec<[u8; 32]>,
) -> (r: Result<(), Error>)
    ensures
        r == consume_ack(*ack, *data, *io, input_lock_hashes@),
{
    if ack_is(ack, 0) {
        verify_ckb_sender_or_receiver(data.sender.as_slice(), input_lock_hashes)?;
        ensure(
            is_amount(checked_sub(io.input_amount, data.amount), io.output_amount),
            Error::SudtAmount,
        )?;
    } else {
        ensure(io.input_amount == io.output_amount, Error::SudtAmount)?;
    }
    verify_sudt_type_and_denom(&io.type_script_hash, data.denom.as_str().as_bytes())
}

} // verus!
