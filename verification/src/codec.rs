//! The wire formats this service owns: pending-operation key names, the
//! serialized subscriber object, the registry snapshot blob, and the journal
//! blob.
//!
//! A pending key is `ADD ` followed by a serialized subscriber, or `DELETE `
//! followed by a uid; the registry and a journal are arrays of serialized
//! subscribers and of quoted strings. Strings are quoted with `"`, and `"`
//! and `\` inside them are escaped with a leading `\`. Encoding and parsing
//! are proved inverse to one another, which is what makes pending keys
//! collision free: distinct operations always produce distinct key names.

use vstd::prelude::*;

use crate::users::BotUser;
use crate::users::PendingOp;

verus! {

/// The quote byte `"`.
pub const QUOTE: u8 = 34;

/// The escape byte `\`.
pub const BACKSLASH: u8 = 92;

/// The escaped form of one payload byte: quote and backslash take a leading
/// backslash, every other byte stands for itself.
pub open spec fn spec_esc_byte(b: u8) -> Seq<u8> {
    if b == QUOTE || b == BACKSLASH {
        seq![BACKSLASH, b]
    } else {
        seq![b]
    }
}

/// The escaped form of a payload: each byte escaped in turn.
pub open spec fn spec_esc(s: Seq<u8>) -> Seq<u8>
    decreases s.len(),
{
    if s.len() == 0 {
        Seq::empty()
    } else {
        spec_esc_byte(s.first()) + spec_esc(s.drop_first())
    }
}

/// Escaping distributes over appending one byte at the end.
pub proof fn lemma_esc_push(s: Seq<u8>, b: u8)
    ensures
        spec_esc(s.push(b)) == spec_esc(s) + spec_esc_byte(b),
    decreases s.len(),
{
    if s.len() == 0 {
        assert(s.push(b).first() == b);
        assert(s.push(b).drop_first() =~= Seq::<u8>::empty());
        assert(spec_esc(s.push(b).drop_first()) =~= Seq::<u8>::empty());
        assert(spec_esc(s.push(b)) =~= spec_esc(s) + spec_esc_byte(b));
    } else {
        lemma_esc_push(s.drop_first(), b);
        assert(s.push(b).drop_first() =~= s.drop_first().push(b));
        assert(s.push(b).first() == s.first());
        assert(spec_esc(s.push(b)) =~= spec_esc(s) + spec_esc_byte(b));
    }
}

/// Append the escaped form of `s` to `out`.
pub fn push_escaped(out: &mut Vec<u8>, s: &Vec<u8>)
    ensures
        final(out)@ == old(out)@ + spec_esc(s@),
{
    let ghost orig = old(out)@;
    let mut i: usize = 0;
    proof {
        assert(spec_esc(s@.take(0)) =~= Seq::<u8>::empty());
        assert(out@ =~= orig + spec_esc(s@.take(0)));
    }
    while i < s.len()
        invariant
            i <= s.len(),
            orig == old(out)@,
            out@ == orig + spec_esc(s@.take(i as int)),
        decreases s.len() - i,
    {
        let b = s[i];
        if b == QUOTE || b == BACKSLASH {
            out.push(BACKSLASH);
            out.push(b);
        } else {
            out.push(b);
        }
        proof {
            assert(s@.take(i + 1int) =~= s@.take(i as int).push(s@[i as int]));
            lemma_esc_push(s@.take(i as int), s@[i as int]);
            assert(out@ =~= orig + spec_esc(s@.take(i + 1int)));
        }
        i += 1;
    }
    proof {
        assert(s@.take(s.len() as int) =~= s@);
    }
}

/// Scan an escaped, quote-terminated string from the front of `buf`:
/// the unescaped payload and the number of bytes consumed, the closing
/// quote included; nothing if `buf` holds no well-formed such string.
pub open spec fn spec_scan_str(buf: Seq<u8>) -> Option<(Seq<u8>, int)>
    decreases buf.len(),
{
    if buf.len() == 0 {
        None
    } else if buf.first() == QUOTE {
        Some((Seq::empty(), 1))
    } else if buf.first() == BACKSLASH {
        if buf.len() >= 2 && (buf[1] == QUOTE || buf[1] == BACKSLASH) {
            match spec_scan_str(buf.skip(2)) {
                Some(r) => Some((seq![buf[1]] + r.0, r.1 + 2)),
                None => None,
            }
        } else {
            None
        }
    } else {
        match spec_scan_str(buf.skip(1)) {
            Some(r) => Some((seq![buf.first()] + r.0, r.1 + 1)),
            None => None,
        }
    }
}

/// Scanning an escaped payload followed by its closing quote yields the
/// payload back and consumes exactly through that quote, whatever follows.
pub proof fn lemma_scan_esc(s: Seq<u8>, rest: Seq<u8>)
    ensures
        spec_scan_str(spec_esc(s) + seq![QUOTE] + rest)
            == Some((s, spec_esc(s).len() + 1int)),
    decreases s.len(),
{
    let buf = spec_esc(s) + seq![QUOTE] + rest;
    if s.len() == 0 {
        assert(spec_esc(s) =~= Seq::<u8>::empty());
        assert(buf.first() == QUOTE);
    } else {
        lemma_scan_esc(s.drop_first(), rest);
        let b = s.first();
        let tail = spec_esc(s.drop_first()) + seq![QUOTE] + rest;
        if b == QUOTE || b == BACKSLASH {
            assert(buf.first() == BACKSLASH);
            assert(buf[1] == b);
            assert(buf.skip(2) =~= tail);
            assert(seq![b] + s.drop_first() =~= s);
        } else {
            assert(buf.first() == b);
            assert(buf.skip(1) =~= tail);
            assert(seq![b] + s.drop_first() =~= s);
        }
    }
}

/// Scan an escaped string out of `buf` starting at `pos` (just past the
/// opening quote): the unescaped payload and the position just past the
/// closing quote.
pub fn scan_str(buf: &Vec<u8>, pos: usize) -> (r: Option<(Vec<u8>, usize)>)
    requires
        pos <= buf.len(),
    ensures
        match r {
            Some(p) => {
                &&& spec_scan_str(buf@.skip(pos as int)) == Some((p.0@, p.1 - pos as int))
                &&& pos < p.1 <= buf.len()
            },
            None => spec_scan_str(buf@.skip(pos as int)) is None,
        },
    decreases buf.len() - pos,
{
    let ghost tail = buf@.skip(pos as int);
    if pos == buf.len() {
        assert(tail.len() == 0);
        return None;
    }
    assert(tail.first() == buf@[pos as int]);
    let b = buf[pos];
    if b == QUOTE {
        return Some((Vec::new(), pos + 1));
    }
    if b == BACKSLASH {
        if pos + 1 < buf.len() {
            let e = buf[pos + 1];
            assert(tail[1] == buf@[pos + 1int]);
            if e == QUOTE || e == BACKSLASH {
                assert(tail.skip(2) =~= buf@.skip(pos + 2int));
                match scan_str(buf, pos + 2) {
                    Some(p) => {
                        let (content, np) = p;
                        let mut front: Vec<u8> = Vec::new();
                        front.push(e);
                        let mut full = front;
                        let mut content = content;
                        full.append(&mut content);
                        assert(full@ =~= seq![tail[1]] + spec_scan_str(tail.skip(2))->Some_0.0);
                        return Some((full, np));
                    }
                    None => {
                        return None;
                    }
                }
            } else {
                return None;
            }
        } else {
            assert(tail.len() < 2);
            return None;
        }
    }
    assert(tail.skip(1) =~= buf@.skip(pos + 1int));
    match scan_str(buf, pos + 1) {
        Some(p) => {
            let (content, np) = p;
            let mut full: Vec<u8> = Vec::new();
            full.push(b);
            let mut content = content;
            full.append(&mut content);
            assert(full@ =~= seq![tail.first()] + spec_scan_str(tail.skip(1))->Some_0.0);
            Some((full, np))
        }
        None => None,
    }
}

/// The closing brace byte `}`.
pub const RBRACE: u8 = 125;

/// The bytes of `{"uid":"`, opening a serialized subscriber.
pub open spec fn spec_uid_prefix() -> Seq<u8> {
    seq![123u8, 34u8, 117u8, 105u8, 100u8, 34u8, 58u8, 34u8]
}

/// The bytes of `,"channel_id":"`, between the two fields.
pub open spec fn spec_channel_mid() -> Seq<u8> {
    seq![44u8, 34u8, 99u8, 104u8, 97u8, 110u8, 110u8, 101u8, 108u8, 95u8, 105u8, 100u8, 34u8, 58u8, 34u8]
}

/// A serialized subscriber: `{"uid":"…","channel_id":"…"}`, both field
/// values escaped.
pub open spec fn spec_subscriber_json(u: (Seq<u8>, Seq<u8>)) -> Seq<u8> {
    spec_uid_prefix() + spec_esc(u.0) + seq![QUOTE] + spec_channel_mid() + spec_esc(u.1)
        + seq![QUOTE, RBRACE]
}

/// The bytes of `{"uid":"` as a vector.
fn uid_prefix() -> (r: Vec<u8>)
    ensures
        r@ == spec_uid_prefix(),
{
    let mut r: Vec<u8> = Vec::new();
    r.push(123);
    r.push(34);
    r.push(117);
    r.push(105);
    r.push(100);
    r.push(34);
    r.push(58);
    r.push(34);
    assert(r@ =~= spec_uid_prefix());
    r
}

/// The bytes of `,"channel_id":"` as a vector.
fn channel_mid() -> (r: Vec<u8>)
    ensures
        r@ == spec_channel_mid(),
{
    let mut r: Vec<u8> = Vec::new();
    r.push(44);
    r.push(34);
    r.push(99);
    r.push(104);
    r.push(97);
    r.push(110);
    r.push(110);
    r.push(101);
    r.push(108);
    r.push(95);
    r.push(105);
    r.push(100);
    r.push(34);
    r.push(58);
    r.push(34);
    assert(r@ =~= spec_channel_mid());
    r
}

/// Serialize a subscriber.
pub fn encode_subscriber(u: &BotUser) -> (r: Vec<u8>)
    ensures
        r@ == spec_subscriber_json(u@),
{
    let mut r = uid_prefix();
    push_escaped(&mut r, &u.uid);
    r.push(QUOTE);
    let mut mid = channel_mid();
    r.append(&mut mid);
    push_escaped(&mut r, &u.channel_id);
    r.push(QUOTE);
    r.push(RBRACE);
    assert(r@ =~= spec_subscriber_json(u@));
    r
}

/// Whether `buf` carries the bytes of `lit` starting at `pos`.
pub fn has_at(buf: &Vec<u8>, pos: usize, lit: &Vec<u8>) -> (r: bool)
    requires
        pos <= buf.len(),
    ensures
        r == (pos + lit@.len() <= buf@.len()
            && buf@.skip(pos as int).take(lit@.len() as int) == lit@),
{
    if buf.len() - pos < lit.len() {
        return false;
    }
    assert(pos + lit@.len() <= buf@.len());
    let mut i: usize = 0;
    while i < lit.len()
        invariant
            i <= lit.len(),
            pos + lit@.len() <= buf@.len(),
            forall|j: int| 0 <= j < i ==> buf@[pos + j] == lit@[j],
        decreases lit.len() - i,
    {
        assert(pos + i < buf@.len());
        assert(buf@.len() == buf.len());
        if buf[pos + i] != lit[i] {
            assert(buf@.skip(pos as int).take(lit@.len() as int)[i as int] != lit@[i as int]);
            return false;
        }
        i += 1;
    }
    assert(buf@.skip(pos as int).take(lit@.len() as int) =~= lit@);
    true
}

/// Parse a serialized subscriber out of `buf` from the front: the subscriber
/// and the number of bytes its serialized form takes.
pub open spec fn spec_parse_subscriber(buf: Seq<u8>) -> Option<((Seq<u8>, Seq<u8>), int)> {
    if buf.len() >= 8 && buf.take(8) == spec_uid_prefix() {
        match spec_scan_str(buf.skip(8)) {
            Some(r1) => {
                let rest = buf.skip(8 + r1.1);
                if rest.len() >= 15 && rest.take(15) == spec_channel_mid() {
                    match spec_scan_str(rest.skip(15)) {
                        Some(r2) => {
                            let rest2 = rest.skip(15 + r2.1);
                            if rest2.len() >= 1 && rest2.first() == RBRACE {
                                Some(((r1.0, r2.0), 8 + r1.1 + 15 + r2.1 + 1))
                            } else {
                                None
                            }
                        },
                        None => None,
                    }
                } else {
                    None
                }
            },
            None => None,
        }
    } else {
        None
    }
}

/// Parsing gives back exactly the subscriber that was serialized, consuming
/// exactly its serialized form, whatever follows it.
pub proof fn lemma_parse_subscriber_json(u: (Seq<u8>, Seq<u8>), rest: Seq<u8>)
    ensures
        spec_parse_subscriber(spec_subscriber_json(u) + rest)
            == Some((u, spec_subscriber_json(u).len() as int)),
{
    let json = spec_subscriber_json(u);
    let buf = json + rest;
    let e0 = spec_esc(u.0);
    let e1 = spec_esc(u.1);
    assert(buf.take(8) =~= spec_uid_prefix());
    assert(buf.skip(8) =~= e0 + seq![QUOTE] + (spec_channel_mid() + e1 + seq![QUOTE, RBRACE]
        + rest));
    lemma_scan_esc(u.0, spec_channel_mid() + e1 + seq![QUOTE, RBRACE] + rest);
    let n1 = e0.len() as int + 1;
    let r1 = buf.skip(8 + n1);
    assert(r1 =~= spec_channel_mid() + e1 + seq![QUOTE, RBRACE] + rest);
    assert(r1.take(15) =~= spec_channel_mid());
    assert(r1.skip(15) =~= e1 + seq![QUOTE] + (seq![RBRACE] + rest));
    lemma_scan_esc(u.1, seq![RBRACE] + rest);
    let n2 = e1.len() as int + 1;
    let r2 = r1.skip(15 + n2);
    assert(r2 =~= seq![RBRACE] + rest);
    assert(r2.first() == RBRACE);
    assert(8 + n1 + 15 + n2 + 1 == json.len());
}

/// Parse a serialized subscriber out of `buf` starting at `pos`: the
/// subscriber and the position just past its serialized form.
pub fn parse_subscriber(buf: &Vec<u8>, pos: usize) -> (r: Option<(BotUser, usize)>)
    requires
        pos <= buf.len(),
    ensures
        match r {
            Some(p) => {
                &&& spec_parse_subscriber(buf@.skip(pos as int))
                    == Some((p.0@, p.1 - pos as int))
                &&& pos < p.1 <= buf.len()
            },
            None => spec_parse_subscriber(buf@.skip(pos as int)) is None,
        },
{
    let ghost tail = buf@.skip(pos as int);
    let prefix = uid_prefix();
    if !has_at(buf, pos, &prefix) {
        assert(!(tail.len() >= 8 && tail.take(8) == spec_uid_prefix()));
        return None;
    }
    assert(tail.take(8) == spec_uid_prefix());
    let p1 = pos + 8;
    assert(buf@.skip(p1 as int) =~= tail.skip(8));
    let (uid, p2) = match scan_str(buf, p1) {
        Some(p) => p,
        None => {
            return None;
        },
    };
    assert(tail.skip(8 + (p2 - p1) as int) =~= buf@.skip(p2 as int));
    let mid = channel_mid();
    if !has_at(buf, p2, &mid) {
        return None;
    }
    let p3 = p2 + 15;
    assert(buf@.skip(p3 as int) =~= buf@.skip(p2 as int).skip(15));
    let (chan, p4) = match scan_str(buf, p3) {
        Some(p) => p,
        None => {
            return None;
        },
    };
    assert(buf@.skip(p2 as int).skip(15 + (p4 - p3) as int) =~= buf@.skip(p4 as int));
    if p4 < buf.len() && buf[p4] == RBRACE {
        assert(buf@.skip(p4 as int).first() == RBRACE);
        let user = BotUser { uid, channel_id: chan };
        return Some((user, p4 + 1));
    }
    if p4 < buf.len() {
        assert(buf@.skip(p4 as int).first() != RBRACE);
    }
    None
}

/// The bytes of `ADD `, opening a pending-addition key.
pub open spec fn spec_add_prefix() -> Seq<u8> {
    seq![65u8, 68u8, 68u8, 32u8]
}

/// The bytes of `DELETE `, opening a pending-deletion key.
pub open spec fn spec_delete_prefix() -> Seq<u8> {
    seq![68u8, 69u8, 76u8, 69u8, 84u8, 69u8, 32u8]
}

/// The bytes of `users`, the registry snapshot's own key.
pub open spec fn spec_registry_key() -> Seq<u8> {
    seq![117u8, 115u8, 101u8, 114u8, 115u8]
}

/// The key recording the intent to add `u`: `ADD ` and the serialized
/// subscriber. Identical subscribers give identical keys, so a repeated
/// enrollment writes the same key again and is a no-op in effect.
pub open spec fn spec_add_key(u: (Seq<u8>, Seq<u8>)) -> Seq<u8> {
    spec_add_prefix() + spec_subscriber_json(u)
}

/// The key recording the intent to remove the uid `id`: `DELETE ` and the
/// uid itself.
pub open spec fn spec_delete_key(id: Seq<u8>) -> Seq<u8> {
    spec_delete_prefix() + id
}

/// The bytes of `ADD ` as a vector.
fn add_prefix() -> (r: Vec<u8>)
    ensures
        r@ == spec_add_prefix(),
{
    let mut r: Vec<u8> = Vec::new();
    r.push(65);
    r.push(68);
    r.push(68);
    r.push(32);
    assert(r@ =~= spec_add_prefix());
    r
}

/// The bytes of `DELETE ` as a vector.
fn delete_prefix() -> (r: Vec<u8>)
    ensures
        r@ == spec_delete_prefix(),
{
    let mut r: Vec<u8> = Vec::new();
    r.push(68);
    r.push(69);
    r.push(76);
    r.push(69);
    r.push(84);
    r.push(69);
    r.push(32);
    assert(r@ =~= spec_delete_prefix());
    r
}

/// The bytes of `users` as a vector.
pub fn registry_key() -> (r: Vec<u8>)
    ensures
        r@ == spec_registry_key(),
{
    let mut r: Vec<u8> = Vec::new();
    r.push(117);
    r.push(115);
    r.push(101);
    r.push(114);
    r.push(115);
    assert(r@ =~= spec_registry_key());
    r
}

/// Build the pending key that records adding `u`.
pub fn add_key(u: &BotUser) -> (r: Vec<u8>)
    ensures
        r@ == spec_add_key(u@),
{
    let mut r = add_prefix();
    let mut json = encode_subscriber(u);
    r.append(&mut json);
    assert(r@ =~= spec_add_key(u@));
    r
}

/// Build the pending key that records deleting the uid `id`.
pub fn delete_key(id: &Vec<u8>) -> (r: Vec<u8>)
    ensures
        r@ == spec_delete_key(id@),
{
    let mut r = delete_prefix();
    let mut idc = id.clone();
    assert(idc@ =~= id@);
    r.append(&mut idc);
    assert(r@ =~= spec_delete_key(id@));
    r
}

/// How one store key reads: the registry snapshot's own key, a pending
/// operation, or neither.
pub enum KeyClass {
    /// The registry snapshot's own key.
    Registry,
    /// A well-formed pending operation.
    Op(PendingOp),
}

/// The model of a classified key.
pub enum KeyClassView {
    Registry,
    Add((Seq<u8>, Seq<u8>)),
    Delete(Seq<u8>),
}

impl View for KeyClass {
    type V = KeyClassView;

    open spec fn view(&self) -> KeyClassView {
        match self {
            KeyClass::Registry => KeyClassView::Registry,
            KeyClass::Op(PendingOp::Add(u)) => KeyClassView::Add(u@),
            KeyClass::Op(PendingOp::Delete(id)) => KeyClassView::Delete(id@),
        }
    }
}

/// How a store key is read during reconciliation: the registry's own key is
/// set aside, `DELETE ` takes the rest of the key as the uid, `ADD ` must be
/// followed by exactly one serialized subscriber; anything else is not a key
/// this service writes, a contract violation.
pub open spec fn spec_classify_key(k: Seq<u8>) -> Option<KeyClassView> {
    if k == spec_registry_key() {
        Some(KeyClassView::Registry)
    } else if k.len() >= 7 && k.take(7) == spec_delete_prefix() {
        Some(KeyClassView::Delete(k.skip(7)))
    } else if k.len() >= 4 && k.take(4) == spec_add_prefix() {
        match spec_parse_subscriber(k.skip(4)) {
            Some(p) => if p.1 == k.len() - 4 {
                Some(KeyClassView::Add(p.0))
            } else {
                None
            },
            None => None,
        }
    } else {
        None
    }
}

/// Classify one store key.
pub fn classify_key(k: &Vec<u8>) -> (r: Option<KeyClass>)
    ensures
        match r {
            Some(c) => spec_classify_key(k@) == Some(c@),
            None => spec_classify_key(k@) is None,
        },
{
    let reg = registry_key();
    if crate::users::bytes_eq(k, &reg) {
        return Some(KeyClass::Registry);
    }
    let del = delete_prefix();
    if has_at(k, 0, &del) {
        assert(k@.skip(0) =~= k@);
        let mut id: Vec<u8> = Vec::new();
        let mut i: usize = 7;
        while i < k.len()
            invariant
                7 <= i <= k.len(),
                id@ =~= k@.subrange(7, i as int),
            decreases k.len() - i,
        {
            id.push(k[i]);
            i += 1;
        }
        assert(id@ =~= k@.skip(7));
        return Some(KeyClass::Op(PendingOp::Delete(id)));
    }
    assert(!(k@.len() >= 7 && k@.take(7) == spec_delete_prefix())) by {
        assert(k@.skip(0) =~= k@);
    }
    let add = add_prefix();
    if has_at(k, 0, &add) {
        assert(k@.skip(0) =~= k@);
        assert(k@.skip(4) =~= k@.skip(4int));
        match parse_subscriber(k, 4) {
            Some(p) => {
                let (user, np) = p;
                if np == k.len() {
                    return Some(KeyClass::Op(PendingOp::Add(user)));
                }
                return None;
            },
            None => {
                return None;
            },
        }
    }
    assert(!(k@.len() >= 4 && k@.take(4) == spec_add_prefix())) by {
        assert(k@.skip(0) =~= k@);
    }
    None
}

/// A pending-addition key reads back as exactly the addition it records.
pub proof fn lemma_classify_add_key(u: (Seq<u8>, Seq<u8>))
    ensures
        spec_classify_key(spec_add_key(u)) == Some(KeyClassView::Add(u)),
{
    let k = spec_add_key(u);
    assert(k[0] == 65u8);
    assert(k != spec_registry_key());
    assert(k.len() >= 7 ==> k.take(7)[0] != spec_delete_prefix()[0]);
    assert(k.take(4) =~= spec_add_prefix());
    assert(k.skip(4) =~= spec_subscriber_json(u) + Seq::<u8>::empty());
    lemma_parse_subscriber_json(u, Seq::<u8>::empty());
    assert(spec_parse_subscriber(k.skip(4)) == Some((u, spec_subscriber_json(u).len() as int)));
    assert(k.skip(4).len() == spec_subscriber_json(u).len());
}

/// A pending-deletion key reads back as exactly the deletion it records.
pub proof fn lemma_classify_delete_key(id: Seq<u8>)
    ensures
        spec_classify_key(spec_delete_key(id)) == Some(KeyClassView::Delete(id)),
{
    let k = spec_delete_key(id);
    assert(k[0] == 68u8);
    assert(k != spec_registry_key());
    assert(k.take(7) =~= spec_delete_prefix());
    assert(k.skip(7) =~= id);
}

/// Distinct pending operations never collide on one key: the key decides the
/// operation, so two different operations give two different keys.
pub proof fn lemma_keys_collision_free(
    u: (Seq<u8>, Seq<u8>),
    v: (Seq<u8>, Seq<u8>),
    id: Seq<u8>,
    jd: Seq<u8>,
)
    ensures
        spec_add_key(u) == spec_add_key(v) ==> u == v,
        spec_delete_key(id) == spec_delete_key(jd) ==> id == jd,
        spec_add_key(u) != spec_delete_key(id),
        spec_add_key(u) != spec_registry_key(),
        spec_delete_key(id) != spec_registry_key(),
{
    lemma_classify_add_key(u);
    lemma_classify_add_key(v);
    lemma_classify_delete_key(id);
    lemma_classify_delete_key(jd);
}

/// The opening bracket byte `[`.
pub const LBRACK: u8 = 91;

/// The closing bracket byte `]`.
pub const RBRACK: u8 = 93;

/// The comma byte `,`.
pub const COMMA: u8 = 44;

/// The serialized subscribers of a registry snapshot, comma separated.
pub open spec fn spec_subs_inner(users: Seq<(Seq<u8>, Seq<u8>)>) -> Seq<u8>
    decreases users.len(),
{
    if users.len() == 0 {
        Seq::empty()
    } else if users.len() == 1 {
        spec_subscriber_json(users[0])
    } else {
        spec_subscriber_json(users.first()) + seq![COMMA] + spec_subs_inner(users.drop_first())
    }
}

/// A registry snapshot blob: the serialized subscribers in brackets.
pub open spec fn spec_registry_json(users: Seq<(Seq<u8>, Seq<u8>)>) -> Seq<u8> {
    seq![LBRACK] + spec_subs_inner(users) + seq![RBRACK]
}

/// Serializing distributes over appending one subscriber at the end.
pub proof fn lemma_subs_inner_push(users: Seq<(Seq<u8>, Seq<u8>)>, u: (Seq<u8>, Seq<u8>))
    ensures
        spec_subs_inner(users.push(u)) == if users.len() == 0 {
            spec_subscriber_json(u)
        } else {
            spec_subs_inner(users) + seq![COMMA] + spec_subscriber_json(u)
        },
    decreases users.len(),
{
    let p = users.push(u);
    if users.len() == 0 {
        assert(p.len() == 1);
        assert(p[0] == u);
    } else {
        lemma_subs_inner_push(users.drop_first(), u);
        assert(p.drop_first() =~= users.drop_first().push(u));
        assert(p.first() == users.first());
        if users.len() == 1 {
            assert(spec_subs_inner(p) =~= spec_subs_inner(users) + seq![COMMA]
                + spec_subscriber_json(u));
        } else {
            assert(spec_subs_inner(p) =~= spec_subs_inner(users) + seq![COMMA]
                + spec_subscriber_json(u));
        }
    }
}

/// Serialize a registry snapshot.
pub fn encode_registry(users: &Vec<BotUser>) -> (r: Vec<u8>)
    ensures
        r@ == spec_registry_json(users.deep_view()),
{
    let ghost all = users.deep_view();
    let mut r: Vec<u8> = Vec::new();
    r.push(LBRACK);
    let mut i: usize = 0;
    proof {
        assert(spec_subs_inner(all.take(0)) =~= Seq::<u8>::empty());
        assert(r@ =~= seq![LBRACK] + spec_subs_inner(all.take(0)));
    }
    while i < users.len()
        invariant
            i <= users.len(),
            all == users.deep_view(),
            r@ == seq![LBRACK] + spec_subs_inner(all.take(i as int)),
        decreases users.len() - i,
    {
        if i > 0 {
            r.push(COMMA);
        }
        let mut json = encode_subscriber(&users[i]);
        r.append(&mut json);
        proof {
            assert(all.take(i + 1int) =~= all.take(i as int).push(all[i as int]));
            lemma_subs_inner_push(all.take(i as int), all[i as int]);
            assert(users@[i as int]@ == all[i as int]);
            assert(r@ =~= seq![LBRACK] + spec_subs_inner(all.take(i + 1int)));
        }
        i += 1;
    }
    r.push(RBRACK);
    proof {
        assert(all.take(users.len() as int) =~= all);
        assert(r@ =~= spec_registry_json(all));
    }
    r
}

/// Parse a comma-separated run of serialized subscribers closed by `]` from
/// the front of `buf`: the subscribers and the bytes consumed, the closing
/// bracket included.
pub open spec fn spec_parse_subs_list(buf: Seq<u8>) -> Option<(Seq<(Seq<u8>, Seq<u8>)>, int)>
    decreases buf.len(),
{
    match spec_parse_subscriber(buf) {
        None => None,
        Some(p) => {
            let n = p.1;
            if 0 <= n < buf.len() {
                if buf[n] == RBRACK {
                    Some((seq![p.0], n + 1))
                } else if buf[n] == COMMA {
                    match spec_parse_subs_list(buf.skip(n + 1)) {
                        None => None,
                        Some(q) => Some((seq![p.0] + q.0, n + 1 + q.1)),
                    }
                } else {
                    None
                }
            } else {
                None
            }
        },
    }
}

/// A whole registry snapshot blob parses to exactly the subscribers in it,
/// or to nothing if the blob is malformed.
pub open spec fn spec_parse_registry(buf: Seq<u8>) -> Option<Seq<(Seq<u8>, Seq<u8>)>> {
    if buf.len() >= 2 && buf.first() == LBRACK {
        if buf.len() == 2 && buf[1] == RBRACK {
            Some(Seq::empty())
        } else {
            match spec_parse_subs_list(buf.skip(1)) {
                Some(p) => if 1 + p.1 == buf.len() {
                    Some(p.0)
                } else {
                    None
                },
                None => None,
            }
        }
    } else {
        None
    }
}

/// A serialized subscriber takes at least its two delimiters' worth of bytes.
pub proof fn lemma_subscriber_json_len(u: (Seq<u8>, Seq<u8>))
    ensures
        spec_subscriber_json(u).len() >= 26,
{
}

/// Parsing a serialized run of subscribers closed by `]` gives them back.
pub proof fn lemma_parse_subs_list_rt(users: Seq<(Seq<u8>, Seq<u8>)>)
    requires
        users.len() >= 1,
    ensures
        spec_parse_subs_list(spec_subs_inner(users) + seq![RBRACK])
            == Some((users, spec_subs_inner(users).len() + 1int)),
    decreases users.len(),
{
    let inner = spec_subs_inner(users);
    let buf = inner + seq![RBRACK];
    if users.len() == 1 {
        lemma_parse_subscriber_json(users[0], seq![RBRACK]);
        assert(buf =~= spec_subscriber_json(users[0]) + seq![RBRACK]);
        let n = spec_subscriber_json(users[0]).len() as int;
        assert(buf[n] == RBRACK);
        assert(seq![users[0]] =~= users);
    } else {
        let u = users.first();
        let rest = users.drop_first();
        lemma_parse_subs_list_rt(rest);
        let tail = spec_subs_inner(rest) + seq![RBRACK];
        assert(buf =~= spec_subscriber_json(u) + (seq![COMMA] + tail));
        lemma_parse_subscriber_json(u, seq![COMMA] + tail);
        let n = spec_subscriber_json(u).len() as int;
        assert(buf[n] == COMMA);
        assert(buf.skip(n + 1) =~= tail);
        assert(seq![u] + rest =~= users);
    }
}

/// Parsing a registry snapshot blob gives back exactly the subscribers that
/// were serialized into it.
pub proof fn lemma_parse_registry_rt(users: Seq<(Seq<u8>, Seq<u8>)>)
    ensures
        spec_parse_registry(spec_registry_json(users)) == Some(users),
{
    let buf = spec_registry_json(users);
    if users.len() == 0 {
        assert(spec_subs_inner(users) =~= Seq::<u8>::empty());
        assert(buf =~= seq![LBRACK, RBRACK]);
        assert(spec_parse_registry(buf) == Some(Seq::<(Seq<u8>, Seq<u8>)>::empty()));
        assert(Seq::<(Seq<u8>, Seq<u8>)>::empty() =~= users);
    } else {
        lemma_parse_subs_list_rt(users);
        assert(buf.first() == LBRACK);
        assert(buf.skip(1) =~= spec_subs_inner(users) + seq![RBRACK]);
        if users.len() == 1 {
            lemma_subscriber_json_len(users[0]);
        } else {
            lemma_subscriber_json_len(users.first());
        }
        assert(buf.len() > 2);
    }
}

/// Parse a run of serialized subscribers closed by `]` out of `buf` starting
/// at `pos`: the subscribers and the position just past the bracket.
pub fn parse_subs_list(buf: &Vec<u8>, pos: usize) -> (r: Option<(Vec<BotUser>, usize)>)
    requires
        pos <= buf.len(),
    ensures
        match r {
            Some(p) => {
                &&& spec_parse_subs_list(buf@.skip(pos as int))
                    == Some((p.0.deep_view(), p.1 - pos as int))
                &&& pos < p.1 <= buf.len()
            },
            None => spec_parse_subs_list(buf@.skip(pos as int)) is None,
        },
    decreases buf.len() - pos,
{
    let ghost tail = buf@.skip(pos as int);
    let (user, np) = match parse_subscriber(buf, pos) {
        Some(p) => p,
        None => {
            return None;
        },
    };
    if np == buf.len() {
        assert(!(0 <= np - pos < tail.len()));
        return None;
    }
    assert(tail[np - pos as int] == buf@[np as int]);
    let c = buf[np];
    if c == RBRACK {
        let mut v: Vec<BotUser> = Vec::new();
        v.push(user);
        assert(v.deep_view() =~= seq![spec_parse_subscriber(tail)->Some_0.0]);
        return Some((v, np + 1));
    }
    if c == COMMA {
        assert(tail.skip(np - pos as int + 1) =~= buf@.skip(np + 1int));
        match parse_subs_list(buf, np + 1) {
            Some(p) => {
                let (rest, m) = p;
                let mut v: Vec<BotUser> = Vec::new();
                v.push(user);
                let mut rest = rest;
                v.append(&mut rest);
                assert(v.deep_view() =~= seq![spec_parse_subscriber(tail)->Some_0.0]
                    + spec_parse_subs_list(tail.skip(np - pos as int + 1))->Some_0.0);
                return Some((v, m));
            },
            None => {
                return None;
            },
        }
    }
    None
}

/// Parse a registry snapshot blob: the subscribers it holds, or nothing if
/// the blob is not exactly one well-formed snapshot.
pub fn parse_registry(buf: &Vec<u8>) -> (r: Option<Vec<BotUser>>)
    ensures
        match r {
            Some(v) => spec_parse_registry(buf@) == Some(v.deep_view()),
            None => spec_parse_registry(buf@) is None,
        },
{
    if buf.len() < 2 {
        return None;
    }
    if buf[0] != LBRACK {
        assert(buf@.first() != LBRACK);
        return None;
    }
    assert(buf@.first() == LBRACK);
    if buf.len() == 2 {
        if buf[1] == RBRACK {
            let v: Vec<BotUser> = Vec::new();
            assert(v.deep_view() =~= Seq::<(Seq<u8>, Seq<u8>)>::empty());
            return Some(v);
        }
        assert(spec_parse_subscriber(buf@.skip(1)) is None) by {
            assert(buf@.skip(1).len() == 1);
        }
        return None;
    }
    assert(!(buf@.len() == 2 && buf@[1] == RBRACK));
    match parse_subs_list(buf, 1) {
        Some(p) => {
            let (v, m) = p;
            if m == buf.len() {
                return Some(v);
            }
            None
        },
        None => None,
    }
}

/// A quoted string: the escaped payload between two quotes.
pub open spec fn spec_quoted(s: Seq<u8>) -> Seq<u8> {
    seq![QUOTE] + spec_esc(s) + seq![QUOTE]
}

/// The quoted entries of a journal, comma separated.
pub open spec fn spec_strs_inner(es: Seq<Seq<u8>>) -> Seq<u8>
    decreases es.len(),
{
    if es.len() == 0 {
        Seq::empty()
    } else if es.len() == 1 {
        spec_quoted(es[0])
    } else {
        spec_quoted(es.first()) + seq![COMMA] + spec_strs_inner(es.drop_first())
    }
}

/// A journal blob: the quoted entries in brackets.
pub open spec fn spec_entries_json(es: Seq<Seq<u8>>) -> Seq<u8> {
    seq![LBRACK] + spec_strs_inner(es) + seq![RBRACK]
}

/// Quoting distributes over appending one entry at the end.
pub proof fn lemma_strs_inner_push(es: Seq<Seq<u8>>, e: Seq<u8>)
    ensures
        spec_strs_inner(es.push(e)) == if es.len() == 0 {
            spec_quoted(e)
        } else {
            spec_strs_inner(es) + seq![COMMA] + spec_quoted(e)
        },
    decreases es.len(),
{
    let p = es.push(e);
    if es.len() == 0 {
        assert(p.len() == 1);
        assert(p[0] == e);
    } else {
        lemma_strs_inner_push(es.drop_first(), e);
        assert(p.drop_first() =~= es.drop_first().push(e));
        assert(p.first() == es.first());
        assert(spec_strs_inner(p) =~= spec_strs_inner(es) + seq![COMMA] + spec_quoted(e));
    }
}

/// Serialize a journal.
pub fn encode_entries(es: &Vec<Vec<u8>>) -> (r: Vec<u8>)
    ensures
        r@ == spec_entries_json(es.deep_view()),
{
    let ghost all = es.deep_view();
    let mut r: Vec<u8> = Vec::new();
    r.push(LBRACK);
    let mut i: usize = 0;
    proof {
        assert(spec_strs_inner(all.take(0)) =~= Seq::<u8>::empty());
        assert(r@ =~= seq![LBRACK] + spec_strs_inner(all.take(0)));
    }
    while i < es.len()
        invariant
            i <= es.len(),
            all == es.deep_view(),
            r@ == seq![LBRACK] + spec_strs_inner(all.take(i as int)),
        decreases es.len() - i,
    {
        if i > 0 {
            r.push(COMMA);
        }
        r.push(QUOTE);
        push_escaped(&mut r, &es[i]);
        r.push(QUOTE);
        proof {
            assert(all.take(i + 1int) =~= all.take(i as int).push(all[i as int]));
            lemma_strs_inner_push(all.take(i as int), all[i as int]);
            assert(es@[i as int]@ == all[i as int]);
            assert(r@ =~= seq![LBRACK] + spec_strs_inner(all.take(i + 1int)));
        }
        i += 1;
    }
    r.push(RBRACK);
    proof {
        assert(all.take(es.len() as int) =~= all);
        assert(r@ =~= spec_entries_json(all));
    }
    r
}

/// Parse one quoted string from the front of `buf`: the payload and the
/// bytes consumed, both quotes included.
pub open spec fn spec_parse_quoted(buf: Seq<u8>) -> Option<(Seq<u8>, int)> {
    if buf.len() >= 1 && buf.first() == QUOTE {
        match spec_scan_str(buf.skip(1)) {
            Some(p) => Some((p.0, p.1 + 1)),
            None => None,
        }
    } else {
        None
    }
}

/// Parse a comma-separated run of quoted strings closed by `]` from the
/// front of `buf`.
pub open spec fn spec_parse_strs_list(buf: Seq<u8>) -> Option<(Seq<Seq<u8>>, int)>
    decreases buf.len(),
{
    match spec_parse_quoted(buf) {
        None => None,
        Some(p) => {
            let n = p.1;
            if 0 <= n < buf.len() {
                if buf[n] == RBRACK {
                    Some((seq![p.0], n + 1))
                } else if buf[n] == COMMA {
                    match spec_parse_strs_list(buf.skip(n + 1)) {
                        None => None,
                        Some(q) => Some((seq![p.0] + q.0, n + 1 + q.1)),
                    }
                } else {
                    None
                }
            } else {
                None
            }
        },
    }
}

/// A whole journal blob parses to exactly the entries in it, or to nothing
/// if the blob is malformed.
pub open spec fn spec_parse_entries(buf: Seq<u8>) -> Option<Seq<Seq<u8>>> {
    if buf.len() >= 2 && buf.first() == LBRACK {
        if buf.len() == 2 && buf[1] == RBRACK {
            Some(Seq::empty())
        } else {
            match spec_parse_strs_list(buf.skip(1)) {
                Some(p) => if 1 + p.1 == buf.len() {
                    Some(p.0)
                } else {
                    None
                },
                None => None,
            }
        }
    } else {
        None
    }
}

/// Parsing a quoted string gives back its payload, whatever follows.
pub proof fn lemma_parse_quoted_rt(s: Seq<u8>, rest: Seq<u8>)
    ensures
        spec_parse_quoted(spec_quoted(s) + rest)
            == Some((s, spec_quoted(s).len() as int)),
{
    let buf = spec_quoted(s) + rest;
    assert(buf.first() == QUOTE);
    assert(buf.skip(1) =~= spec_esc(s) + seq![QUOTE] + rest);
    lemma_scan_esc(s, rest);
}

/// Parsing a serialized run of quoted strings closed by `]` gives them back.
pub proof fn lemma_parse_strs_list_rt(es: Seq<Seq<u8>>)
    requires
        es.len() >= 1,
    ensures
        spec_parse_strs_list(spec_strs_inner(es) + seq![RBRACK])
            == Some((es, spec_strs_inner(es).len() + 1int)),
    decreases es.len(),
{
    let inner = spec_strs_inner(es);
    let buf = inner + seq![RBRACK];
    if es.len() == 1 {
        lemma_parse_quoted_rt(es[0], seq![RBRACK]);
        assert(buf =~= spec_quoted(es[0]) + seq![RBRACK]);
        let n = spec_quoted(es[0]).len() as int;
        assert(buf[n] == RBRACK);
        assert(seq![es[0]] =~= es);
    } else {
        let e = es.first();
        let rest = es.drop_first();
        lemma_parse_strs_list_rt(rest);
        let tail = spec_strs_inner(rest) + seq![RBRACK];
        assert(buf =~= spec_quoted(e) + (seq![COMMA] + tail));
        lemma_parse_quoted_rt(e, seq![COMMA] + tail);
        let n = spec_quoted(e).len() as int;
        assert(buf[n] == COMMA);
        assert(buf.skip(n + 1) =~= tail);
        assert(seq![e] + rest =~= es);
    }
}

/// Parsing a journal blob gives back exactly the entries that were
/// serialized into it.
pub proof fn lemma_parse_entries_rt(es: Seq<Seq<u8>>)
    ensures
        spec_parse_entries(spec_entries_json(es)) == Some(es),
{
    let buf = spec_entries_json(es);
    if es.len() == 0 {
        assert(spec_strs_inner(es) =~= Seq::<u8>::empty());
        assert(buf =~= seq![LBRACK, RBRACK]);
        assert(spec_parse_entries(buf) == Some(Seq::<Seq<u8>>::empty()));
        assert(Seq::<Seq<u8>>::empty() =~= es);
    } else {
        lemma_parse_strs_list_rt(es);
        assert(buf.first() == LBRACK);
        assert(buf.skip(1) =~= spec_strs_inner(es) + seq![RBRACK]);
        assert(buf.len() > 2);
    }
}

/// Parse one quoted string out of `buf` starting at `pos`.
pub fn parse_quoted(buf: &Vec<u8>, pos: usize) -> (r: Option<(Vec<u8>, usize)>)
    requires
        pos <= buf.len(),
    ensures
        match r {
            Some(p) => {
                &&& spec_parse_quoted(buf@.skip(pos as int)) == Some((p.0@, p.1 - pos as int))
                &&& pos < p.1 <= buf.len()
            },
            None => spec_parse_quoted(buf@.skip(pos as int)) is None,
        },
{
    let ghost tail = buf@.skip(pos as int);
    if pos == buf.len() {
        return None;
    }
    assert(tail.first() == buf@[pos as int]);
    if buf[pos] != QUOTE {
        return None;
    }
    assert(tail.skip(1) =~= buf@.skip(pos + 1int));
    match scan_str(buf, pos + 1) {
        Some(p) => Some((p.0, p.1)),
        None => None,
    }
}

/// Parse a run of quoted strings closed by `]` out of `buf` starting at
/// `pos`.
pub fn parse_strs_list(buf: &Vec<u8>, pos: usize) -> (r: Option<(Vec<Vec<u8>>, usize)>)
    requires
        pos <= buf.len(),
    ensures
        match r {
            Some(p) => {
                &&& spec_parse_strs_list(buf@.skip(pos as int))
                    == Some((p.0.deep_view(), p.1 - pos as int))
                &&& pos < p.1 <= buf.len()
            },
            None => spec_parse_strs_list(buf@.skip(pos as int)) is None,
        },
    decreases buf.len() - pos,
{
    let ghost tail = buf@.skip(pos as int);
    let (entry, np) = match parse_quoted(buf, pos) {
        Some(p) => p,
        None => {
            return None;
        },
    };
    if np == buf.len() {
        assert(!(0 <= np - pos < tail.len()));
        return None;
    }
    assert(tail[np - pos as int] == buf@[np as int]);
    let c = buf[np];
    if c == RBRACK {
        let mut v: Vec<Vec<u8>> = Vec::new();
        v.push(entry);
        assert(v.deep_view() =~~= seq![spec_parse_quoted(tail)->Some_0.0]);
        return Some((v, np + 1));
    }
    if c == COMMA {
        assert(tail.skip(np - pos as int + 1) =~= buf@.skip(np + 1int));
        match parse_strs_list(buf, np + 1) {
            Some(p) => {
                let (rest, m) = p;
                let mut v: Vec<Vec<u8>> = Vec::new();
                v.push(entry);
                let mut rest = rest;
                v.append(&mut rest);
                assert(v.deep_view() =~~= seq![spec_parse_quoted(tail)->Some_0.0]
                    + spec_parse_strs_list(tail.skip(np - pos as int + 1))->Some_0.0);
                return Some((v, m));
            },
            None => {
                return None;
            },
        }
    }
    None
}

/// Parse a journal blob: the entries it holds, or nothing if the blob is
/// not exactly one well-formed journal.
pub fn parse_entries(buf: &Vec<u8>) -> (r: Option<Vec<Vec<u8>>>)
    ensures
        match r {
            Some(v) => spec_parse_entries(buf@) == Some(v.deep_view()),
            None => spec_parse_entries(buf@) is None,
        },
{
    if buf.len() < 2 {
        return None;
    }
    if buf[0] != LBRACK {
        assert(buf@.first() != LBRACK);
        return None;
    }
    assert(buf@.first() == LBRACK);
    if buf.len() == 2 {
        if buf[1] == RBRACK {
            let v: Vec<Vec<u8>> = Vec::new();
            assert(v.deep_view() =~~= Seq::<Seq<u8>>::empty());
            return Some(v);
        }
        assert(spec_parse_quoted(buf@.skip(1)) is None) by {
            assert(buf@.skip(1).len() == 1);
            if buf@.skip(1).first() == QUOTE {
                assert(buf@.skip(1).skip(1).len() == 0);
            }
        }
        return None;
    }
    assert(!(buf@.len() == 2 && buf@[1] == RBRACK));
    match parse_strs_list(buf, 1) {
        Some(p) => {
            let (v, m) = p;
            if m == buf.len() {
                return Some(v);
            }
            None
        },
        None => None,
    }
}

/// Classify a whole page of store keys into the page's additions and
/// deletions, in listing order; the registry's own key is set aside, and a
/// key this service never writes fails the whole page, a contract violation.
pub open spec fn spec_collect(keys: Seq<Seq<u8>>) -> Option<
    (Seq<(Seq<u8>, Seq<u8>)>, Seq<Seq<u8>>),
>
    decreases keys.len(),
{
    if keys.len() == 0 {
        Some((Seq::empty(), Seq::empty()))
    } else {
        match spec_collect(keys.drop_last()) {
            None => None,
            Some(acc) => match spec_classify_key(keys.last()) {
                None => None,
                Some(KeyClassView::Registry) => Some(acc),
                Some(KeyClassView::Add(u)) => Some((acc.0.push(u), acc.1)),
                Some(KeyClassView::Delete(id)) => Some((acc.0, acc.1.push(id))),
            },
        }
    }
}

/// Once one key fails to classify, the whole page fails.
proof fn lemma_collect_none_extends(keys: Seq<Seq<u8>>, i: int)
    requires
        0 <= i <= keys.len(),
        spec_collect(keys.take(i)) is None,
    ensures
        spec_collect(keys) is None,
    decreases keys.len() - i,
{
    if i == keys.len() {
        assert(keys.take(i) =~= keys);
    } else {
        assert(keys.take(i + 1).drop_last() =~= keys.take(i));
        lemma_collect_none_extends(keys, i + 1);
    }
}

/// Classify a page of store keys: the subscribers its `ADD ` keys carry and
/// the uids its `DELETE ` keys carry, in listing order, the registry's own
/// key set aside; nothing if any key is not one this service writes.
pub fn classify_page(keys: &Vec<Vec<u8>>) -> (r: Option<crate::users::Page>)
    ensures
        match r {
            Some(p) => spec_collect(keys.deep_view()) == Some(p@),
            None => spec_collect(keys.deep_view()) is None,
        },
{
    let ghost all = keys.deep_view();
    let mut adds: Vec<BotUser> = Vec::new();
    let mut dels: Vec<Vec<u8>> = Vec::new();
    let mut i: usize = 0;
    proof {
        assert(all.take(0) =~= Seq::<Seq<u8>>::empty());
        assert(adds.deep_view() =~= Seq::<(Seq<u8>, Seq<u8>)>::empty());
        assert(dels.deep_view() =~~= Seq::<Seq<u8>>::empty());
    }
    while i < keys.len()
        invariant
            i <= keys.len(),
            all == keys.deep_view(),
            spec_collect(all.take(i as int)) == Some((adds.deep_view(), dels.deep_view())),
        decreases keys.len() - i,
    {
        proof {
            assert(all.take(i + 1int).drop_last() =~= all.take(i as int));
            assert(all.take(i + 1int).last() == all[i as int]);
            assert(keys@[i as int]@ == all[i as int]);
        }
        let ghost a0 = adds.deep_view();
        let ghost d0 = dels.deep_view();
        match classify_key(&keys[i]) {
            None => {
                proof {
                    lemma_collect_none_extends(all, i + 1);
                }
                return None;
            },
            Some(KeyClass::Registry) => {},
            Some(KeyClass::Op(PendingOp::Add(u))) => {
                let ghost uv = u@;
                adds.push(u);
                assert(adds.deep_view() =~= a0.push(uv));
            },
            Some(KeyClass::Op(PendingOp::Delete(id))) => {
                let ghost idv = id@;
                dels.push(id);
                assert(dels.deep_view() =~~= d0.push(idv));
            },
        }
        i += 1;
    }
    proof {
        assert(all.take(keys.len() as int) =~= all);
    }
    Some(crate::users::Page { adds, dels })
}

} // verus!
