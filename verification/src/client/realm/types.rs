//! The realms of the realm list and their layout in the `REALM_LIST` answer.

use vstd::prelude::*;

use crate::bytes::le_value;
use crate::client::reader::{lemma_until_nul_prefix, until_nul, ByteReader};
use crate::errors::FieldError;
use crate::text::{lemma_text_without_zero_has_no_nul, lossy_text, text_of};
use vstd::utf8::valid_utf8;

verus! {

/// A realm of the realm list.
#[derive(Clone, Debug)]
pub struct Realm {
    pub icon: u8,
    pub lock: u8,
    pub flags: u8,
    pub name: String,
    pub address: String,
    /// The bits of the population, an IEEE-754 single (`f32::from_bits` gives the number).
    pub population: u32,
    pub characters: u8,
    pub timezone: u8,
    pub server_id: u8,
}

/// The mathematical value of a realm.
pub struct RealmView {
    pub icon: u8,
    pub lock: u8,
    pub flags: u8,
    pub name: Seq<char>,
    pub address: Seq<char>,
    pub population: u32,
    pub characters: u8,
    pub timezone: u8,
    pub server_id: u8,
}

impl View for Realm {
    type V = RealmView;

    open spec fn view(&self) -> RealmView {
        RealmView {
            icon: self.icon,
            lock: self.lock,
            flags: self.flags,
            name: self.name@,
            address: self.address@,
            population: self.population,
            characters: self.characters,
            timezone: self.timezone,
            server_id: self.server_id,
        }
    }
}

/// A zero-terminated field without its terminator.
pub open spec fn strip_nul(raw: Seq<u8>) -> Seq<u8> {
    if raw.len() > 0 && raw.last() == 0 {
        raw.drop_last()
    } else {
        raw
    }
}

/// One realm at the start of `d`, and how many bytes it takes: three bytes, the name and
/// the address (each up to a zero byte), the population (4 bytes), three more bytes.
#[verifier::opaque]
pub open spec fn realm_entry(d: Seq<u8>) -> Option<(RealmView, nat)> {
    if d.len() < 3 {
        None
    } else {
        let r1 = d.skip(3);
        let name_raw = until_nul(r1);
        let r2 = r1.skip(name_raw.len() as int);
        let address_raw = until_nul(r2);
        let r3 = r2.skip(address_raw.len() as int);
        if r3.len() < 7 {
            None
        } else {
            Some(
                (
                    RealmView {
                        icon: d[0],
                        lock: d[1],
                        flags: d[2],
                        name: text_of(strip_nul(name_raw)),
                        address: text_of(strip_nul(address_raw)),
                        population: le_value(r3.take(4)) as u32,
                        characters: r3[4],
                        timezone: r3[5],
                        server_id: r3[6],
                    },
                    (3 + name_raw.len() + address_raw.len() + 7) as nat,
                ),
            )
        }
    }
}

/// `n` realms one after the other at the start of `d`, and how many bytes they take.
pub open spec fn realm_entries(d: Seq<u8>, n: nat) -> Option<(Seq<RealmView>, nat)>
    decreases n,
{
    if n == 0 {
        Some((Seq::empty(), 0))
    } else {
        match realm_entries(d, (n - 1) as nat) {
            None => None,
            Some((realms, used)) => match realm_entry(d.skip(used as int)) {
                None => None,
                Some((realm, more)) => Some((realms.push(realm), used + more)),
            },
        }
    }
}

/// The number of realms a signed 16-bit count announces (none when it is negative).
pub open spec fn realm_count(d: Seq<u8>) -> nat {
    let v = le_value(d.take(2));
    if v < 32768 {
        v
    } else {
        0
    }
}

/// The realm list: a signed 16-bit count, then the realms.
pub open spec fn realm_list(d: Seq<u8>) -> Option<Seq<RealmView>> {
    if d.len() < 2 {
        None
    } else {
        match realm_entries(d.skip(2), realm_count(d)) {
            Some((realms, _)) => Some(realms),
            None => None,
        }
    }
}

pub open spec fn realm_views(realms: Seq<Realm>) -> Seq<RealmView> {
    Seq::new(realms.len(), |k: int| realms[k]@)
}

impl Realm {
    /// A copy of the realm.
    pub fn duplicate(&self) -> (r: Realm)
        ensures
            r@ == self@,
    {
        Realm {
            icon: self.icon,
            lock: self.lock,
            flags: self.flags,
            name: self.name.clone(),
            address: self.address.clone(),
            population: self.population,
            characters: self.characters,
            timezone: self.timezone,
            server_id: self.server_id,
        }
    }
}

/// A copy of a realm list.
pub fn copy_realms(realms: &Vec<Realm>) -> (r: Vec<Realm>)
    ensures
        realm_views(r@) == realm_views(realms@),
{
    let mut out: Vec<Realm> = Vec::new();
    let mut k: usize = 0;
    while k < realms.len()
        invariant
            k <= realms@.len(),
            out@.len() == k,
            forall|j: int| 0 <= j < k ==> #[trigger] out@[j]@ == realms@[j]@,
        decreases realms@.len() - k,
    {
        out.push(realms[k].duplicate());
        k = k + 1;
    }
    assert(realm_views(out@) =~= realm_views(realms@));
    out
}

proof fn lemma_skip_skip(d: Seq<u8>, a: int, b: int)
    requires
        0 <= a,
        0 <= b,
        a + b <= d.len(),
    ensures
        d.skip(a).skip(b) == d.skip(a + b),
        b > 0 ==> d.skip(a)[0] == d[a],
        b > 0 ==> d.skip(a).skip(b - 1)[0] == d[a + b - 1],
{
    assert(d.skip(a).skip(b) =~= d.skip(a + b));
}

/// A field read up to its zero byte, without that byte, holds no zero byte.
proof fn lemma_stripped_field_has_no_zero(rest: Seq<u8>)
    ensures
        forall|i: int|
            0 <= i < strip_nul(until_nul(rest)).len() ==> #[trigger] strip_nul(until_nul(rest))[i] != 0,
{
    crate::client::reader::lemma_until_nul_zeros(rest);
    let raw = until_nul(rest);
    if raw.len() > 0 && raw.last() == 0 {
        assert forall|i: int| 0 <= i < strip_nul(raw).len() implies #[trigger] strip_nul(raw)[i] != 0 by {
            assert(strip_nul(raw)[i] == raw[i]);
        }
    }
}

/// The name and the address of a realm, where they are valid UTF-8, hold no character
/// `'\0'`: each field ends at its first zero byte.
pub proof fn lemma_realm_texts_have_no_nul(d: Seq<u8>)
    requires
        realm_entry(d) is Some,
    ensures
        ({
            let r1 = d.skip(3);
            let name_raw = strip_nul(until_nul(r1));
            let address_raw = strip_nul(until_nul(r1.skip(until_nul(r1).len() as int)));
            let realm = realm_entry(d)->Some_0.0;
            &&& valid_utf8(name_raw) ==> forall|j: int|
                0 <= j < realm.name.len() ==> #[trigger] realm.name[j] != '\0'
            &&& valid_utf8(address_raw) ==> forall|j: int|
                0 <= j < realm.address.len() ==> #[trigger] realm.address[j] != '\0'
        }),
{
    reveal(realm_entry);
    let r1 = d.skip(3);
    let r2 = r1.skip(until_nul(r1).len() as int);
    lemma_stripped_field_has_no_zero(r1);
    lemma_stripped_field_has_no_zero(r2);
    if valid_utf8(strip_nul(until_nul(r1))) {
        lemma_text_without_zero_has_no_nul(strip_nul(until_nul(r1)));
    }
    if valid_utf8(strip_nul(until_nul(r2))) {
        lemma_text_without_zero_has_no_nul(strip_nul(until_nul(r2)));
    }
}

/// The three leading bytes of a realm: icon, lock and flags.
fn read_realm_head(reader: &mut ByteReader) -> (head: Result<(u8, u8, u8), FieldError>)
    requires
        old(reader).wf(),
    ensures
        final(reader).wf(),
        final(reader).data() == old(reader).data(),
        old(reader).rest().len() >= 3 ==> head == Ok::<(u8, u8, u8), FieldError>(
            (old(reader).rest()[0], old(reader).rest()[1], old(reader).rest()[2]),
        ) && final(reader).rest() == old(reader).rest().skip(3) && final(reader).pos() == old(reader).pos() + 3,
        old(reader).rest().len() < 3 ==> head is Err,
{
    let ghost d = old(reader).rest();
    let icon = reader.read_u8()?;
    let lock = reader.read_u8()?;
    let flags = reader.read_u8()?;
    proof {
        lemma_skip_skip(d, 1, 1);
        lemma_skip_skip(d, 2, 1);
    }
    Ok((icon, lock, flags))
}

/// The seven trailing bytes of a realm: population, characters, timezone, server id.
fn read_realm_tail(reader: &mut ByteReader) -> (tail: Result<(u32, u8, u8, u8), FieldError>)
    requires
        old(reader).wf(),
    ensures
        final(reader).wf(),
        final(reader).data() == old(reader).data(),
        old(reader).rest().len() >= 7 ==> tail == Ok::<(u32, u8, u8, u8), FieldError>(
            (
                le_value(old(reader).rest().take(4)) as u32,
                old(reader).rest()[4],
                old(reader).rest()[5],
                old(reader).rest()[6],
            ),
        ) && final(reader).rest() == old(reader).rest().skip(7) && final(reader).pos() == old(reader).pos() + 7,
        old(reader).rest().len() < 7 ==> tail is Err,
{
    let ghost d = old(reader).rest();
    let population_bytes = reader.read_bytes(4)?;
    let population = population_value(&population_bytes);
    let characters = reader.read_u8()?;
    let timezone = reader.read_u8()?;
    let server_id = reader.read_u8()?;
    proof {
        lemma_skip_skip(d, 4, 1);
        lemma_skip_skip(d, 5, 1);
        lemma_skip_skip(d, 6, 1);
    }
    Ok((population, characters, timezone, server_id))
}

/// Reads one realm; `reader` stands where it starts.
fn read_realm(reader: &mut ByteReader) -> (realm: Result<Realm, FieldError>)
    requires
        old(reader).wf(),
    ensures
        final(reader).wf(),
        final(reader).data() == old(reader).data(),
        match realm_entry(old(reader).rest()) {
            None => realm == Err::<Realm, FieldError>(FieldError::CannotRead),
            Some((view, used)) => realm is Ok && realm->Ok_0@ == view && final(reader).pos() == old(
                reader,
            ).pos() + used && used <= old(reader).rest().len() && final(reader).rest() == old(
                reader,
            ).rest().skip(used as int),
        },
{
    let ghost d = old(reader).rest();
    let head = read_realm_head(reader);
    let (icon, lock, flags) = match head {
        Ok(h) => h,
        Err(_) => {
            proof {
                reveal(realm_entry);
            }
            return Err(FieldError::CannotRead);
        },
    };
    let name = reader.read_until_nul();
    let address = reader.read_until_nul();
    let ghost r3 = reader.rest();
    proof {
        reveal(realm_entry);
        lemma_until_nul_prefix(d.skip(3));
        lemma_until_nul_prefix(d.skip(3).skip(name@.len() as int));
        lemma_skip_skip(d, 3, name@.len() as int);
        lemma_skip_skip(d, (3 + name@.len()) as int, address@.len() as int);
        assert(r3 == d.skip(3).skip(name@.len() as int).skip(address@.len() as int));
    }
    let tail = read_realm_tail(reader);
    let (population, characters, timezone, server_id) = match tail {
        Ok(t) => t,
        Err(_) => {
            return Err(FieldError::CannotRead);
        },
    };
    proof {
        lemma_skip_skip(d, (3 + name@.len() + address@.len()) as int, 7);
    }
    let name_text = lossy_text(strip_terminator(&name).as_slice());
    let address_text = lossy_text(strip_terminator(&address).as_slice());
    Ok(
        Realm {
            icon,
            lock,
            flags,
            name: name_text,
            address: address_text,
            population,
            characters,
            timezone,
            server_id,
        },
    )
}

fn population_value(bytes: &Vec<u8>) -> (v: u32)
    requires
        bytes@.len() == 4,
    ensures
        v == le_value(bytes@) as u32,
{
    let v: u32 = bytes[0] as u32 + 256 * (bytes[1] as u32 + 256 * (bytes[2] as u32 + 256 * bytes[3] as u32));
    proof {
        reveal_with_fuel(le_value, 5);
        let s = bytes@;
        assert(s.drop_first().drop_first().drop_first().drop_first() =~= Seq::<u8>::empty());
    }
    v
}

/// The bytes of a zero-terminated field without the terminator.
fn strip_terminator(raw: &Vec<u8>) -> (bytes: Vec<u8>)
    ensures
        bytes@ == strip_nul(raw@),
{
    let mut bytes = raw.clone();
    if bytes.len() > 0 && bytes[bytes.len() - 1] == 0 {
        bytes.pop();
    }
    assert(bytes@ =~= strip_nul(raw@));
    bytes
}

/// Reads the realm list of a `REALM_LIST` answer.
pub fn read_realms(reader: &mut ByteReader) -> (realms: Result<Vec<Realm>, FieldError>)
    requires
        old(reader).wf(),
    ensures
        final(reader).wf(),
        final(reader).data() == old(reader).data(),
        match realm_list(old(reader).rest()) {
            None => realms == Err::<Vec<Realm>, FieldError>(FieldError::CannotRead),
            Some(views) => realms is Ok && realm_views(realms->Ok_0@) == views,
        },
{
    let ghost d = old(reader).rest();
    let count_bytes = match reader.read_bytes(2) {
        Ok(b) => b,
        Err(_) => {
            return Err(FieldError::CannotRead);
        },
    };
    let count_raw = population_value_u16(&count_bytes);
    let count: u16 = if count_raw < 32768 {
        count_raw
    } else {
        0
    };
    let ghost body = reader.rest();
    let mut realms: Vec<Realm> = Vec::new();
    let mut k: u16 = 0;
    let ghost mut used: nat = 0;
    proof {
        assert(body.skip(0) =~= body);
        assert(realm_views(realms@) =~= Seq::<RealmView>::empty());
    }
    while k < count
        invariant
            reader.wf(),
            reader.data() == old(reader).data(),
            k <= count,
            count == realm_count(d),
            d == old(reader).rest(),
            d.len() >= 2,
            body == d.skip(2),
            used <= body.len(),
            reader.rest() == body.skip(used as int),
            realm_entries(body, k as nat) == Some::<(Seq<RealmView>, nat)>(
                (realm_views(realms@), used),
            ),
        decreases count - k,
    {
        let ghost before = realms@;
        let realm = read_realm(reader);
        match realm {
            Ok(realm) => {
                realms.push(realm);
                proof {
                    let step = realm_entry(body.skip(used as int))->Some_0.1;
                    lemma_skip_skip(body, used as int, step as int);
                    used = used + step;
                }
                k = k + 1;
                assert(realm_views(realms@) =~= realm_views(before).push(realms@.last()@));
            },
            Err(_) => {
                proof {
                    assert(realm_entry(body.skip(used as int)) is None);
                    lemma_entries_fail(body, k as nat, count as nat);
                    assert(realm_entries(d.skip(2), realm_count(d)) is None);
                    assert(realm_list(d) is None);
                }
                return Err(FieldError::CannotRead);
            },
        }
    }
    Ok(realms)
}

fn population_value_u16(bytes: &Vec<u8>) -> (v: u16)
    requires
        bytes@.len() == 2,
    ensures
        v == le_value(bytes@),
{
    let v: u16 = bytes[0] as u16 + 256 * bytes[1] as u16;
    proof {
        reveal_with_fuel(le_value, 3);
        assert(bytes@.drop_first().drop_first() =~= Seq::<u8>::empty());
    }
    v
}

/// Once an entry fails, every longer list fails.
proof fn lemma_entries_fail(d: Seq<u8>, k: nat, n: nat)
    requires
        k < n,
        realm_entries(d, k) is Some,
        realm_entry(d.skip(realm_entries(d, k)->Some_0.1 as int)) is None,
    ensures
        realm_entries(d, n) is None,
    decreases n,
{
    if n == k + 1 {
    } else {
        lemma_entries_fail(d, k, (n - 1) as nat);
    }
}

} // verus!
