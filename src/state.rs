use vstd::prelude::*;

verus! {

/// Bytes the host reserves in front of every record to tell record kinds apart.
pub const DISCRIMINATOR_LENGTH: usize = 8;
/// Bytes of the fixed-size fields of a jar: two flags, the owner, goal,
/// balance, bump, cursor and tip count.
pub const STATIC_SIZE: usize = 1 + 1 + 32 + 8 + 8 + 1 + 2 + 4;
/// Most bytes a jar's description may hold.
pub const MAX_DESCRIPTION_LEN: usize = 200;
/// Most bytes a jar's category may hold.
pub const MAX_CATEGORY_LEN: usize = 100;
/// Most bytes a tip's memo may hold.
pub const MAX_MEMO_LEN: usize = 100;
/// Number of tips the history keeps.
pub const MAX_HISTORY_LEN: usize = 100;
/// Bytes of one stored tip: sender, amount, visibility, memo with its
/// length prefix, timestamp.
pub const TIP_SIZE: usize = 32 + 8 + 1 + (4 + 100) + 8;

/// The number of bytes `c` takes in UTF-8.
pub open spec fn char_utf8_len(c: char) -> nat {
    if (c as u32) < 0x80 {
        1
    } else if (c as u32) < 0x800 {
        2
    } else if (c as u32) < 0x10000 {
        3
    } else {
        4
    }
}

/// The number of bytes the UTF-8 encoding of `s` takes.
pub open spec fn utf8_len(s: Seq<char>) -> nat
    decreases s.len(),
{
    if s.len() == 0 {
        0
    } else {
        utf8_len(s.drop_last()) + char_utf8_len(s.last())
    }
}

/// Relies on `str::len`: the length of the string's UTF-8 encoding in bytes.
#[verifier::external_body]
pub(crate) fn byte_len(s: &String) -> (r: usize)
    ensures
        r == utf8_len(s@),
{
    s.len()
}

/// A 32-byte account identity, as the host verified it.
#[derive(Clone, Copy, Debug)]
pub struct Pubkey {
    pub bytes: [u8; 32],
}

impl View for Pubkey {
    type V = Seq<u8>;

    open spec fn view(&self) -> Seq<u8> {
        self.bytes@
    }
}

impl PartialEq for Pubkey {
    fn eq(&self, other: &Pubkey) -> (r: bool) {
        self.key_eq(other)
    }
}

impl vstd::std_specs::cmp::PartialEqSpecImpl for Pubkey {
    open spec fn obeys_eq_spec() -> bool {
        true
    }

    open spec fn eq_spec(&self, other: &Pubkey) -> bool {
        self@ == other@
    }
}

impl Eq for Pubkey {

}

impl Pubkey {
    pub fn new(bytes: [u8; 32]) -> (r: Pubkey)
        ensures
            r.bytes == bytes,
    {
        Pubkey { bytes }
    }

    /// Whether two identities are the same account.
    pub fn key_eq(&self, other: &Pubkey) -> (r: bool)
        ensures
            r == (self@ == other@),
    {
        let mut i: usize = 0;
        while i < 32
            invariant
                i <= 32,
                self@.len() == 32,
                other@.len() == 32,
                forall|j: int| 0 <= j < i ==> self@[j] == other@[j],
            decreases 32 - i,
        {
            if self.bytes[i] != other.bytes[i] {
                return false;
            }
            i = i + 1;
        }
        assert(self@ =~= other@);
        true
    }
}

/// Whether a tip shows its sender.
#[derive(Clone, Copy, Debug, PartialEq, Eq, Structural)]
pub enum Visibility {
    /// The sender is shown with the tip.
    Public,
    /// Only the amount is shown.
    Anonymous,
}

/// One recorded tip.
#[derive(Clone, Debug)]
pub struct Tip {
    pub sender: Pubkey,
    pub amount: u64,
    pub visibility: Visibility,
    pub memo: String,
    pub timestamp: u64,
}

impl Tip {
    /// A tip moves a positive amount and carries a memo within bounds.
    pub open spec fn wf(&self) -> bool {
        &&& self.amount > 0
        &&& utf8_len(self.memo@) <= MAX_MEMO_LEN
    }
}

/// Where a tip lands in a history `h` whose write cursor is `cursor`, and
/// where the cursor goes: appended while there is room, otherwise written
/// over the slot under the cursor, which then moves on by one, wrapping.
pub open spec fn ring_insert(h: Seq<Tip>, cursor: nat, t: Tip) -> (Seq<Tip>, nat) {
    if h.len() < MAX_HISTORY_LEN {
        (h.push(t), cursor)
    } else {
        (h.update((cursor % (MAX_HISTORY_LEN as nat)) as int, t), (cursor + 1) % (MAX_HISTORY_LEN as nat))
    }
}


/// What a jar holds, as mathematical values.
pub struct JarModel {
    pub is_active: bool,
    pub is_private: bool,
    pub owner: Pubkey,
    pub description: Seq<char>,
    pub category: Seq<char>,
    pub goal: u64,
    pub total_received: u64,
    pub history: Seq<Tip>,
    pub cursor: nat,
    pub total_tips_count: u32,
    pub bump: u8,
}

impl JarModel {
    /// The jar after it accepted `t`: the tip enters the ring, the count
    /// grows by one and the balance by the tip's amount.
    pub open spec fn accept(self, t: Tip) -> JarModel {
        JarModel {
            history: ring_insert(self.history, self.cursor, t).0,
            cursor: ring_insert(self.history, self.cursor, t).1,
            total_tips_count: (self.total_tips_count + 1) as u32,
            total_received: (self.total_received + t.amount) as u64,
            ..self
        }
    }

    /// The jar with its active flag set to `active`.
    pub open spec fn with_active(self, active: bool) -> JarModel {
        JarModel { is_active: active, ..self }
    }

    /// Whether `caller` is the jar's owner.
    pub open spec fn is_owner(self, caller: Pubkey) -> bool {
        caller@ == self.owner@
    }
}

/// The persistent tip jar record.
#[derive(Debug)]
pub struct TipJar {
    /// Whether tips are taken at the moment.
    pub is_active: bool,
    /// Whether only the owner may tip.
    pub is_private: bool,
    /// The account that controls the jar and receives withdrawals.
    pub owner: Pubkey,
    /// What the jar is for.
    pub description: String,
    /// A free category tag.
    pub category: String,
    /// The amount the jar aims to collect.
    pub goal: u64,
    /// The balance credited to the jar.
    pub total_received: u64,
    /// Recent tips, kept as a ring once full.
    pub tips_history: Vec<Tip>,
    /// The slot the next tip overwrites once the history is full.
    pub last_tip_index: u16,
    /// Every tip ever accepted, whatever the history still holds.
    pub total_tips_count: u32,
    /// The seed bump of the jar's derived address.
    pub bump: u8,
}

impl View for TipJar {
    type V = JarModel;

    open spec fn view(&self) -> JarModel {
        JarModel {
            is_active: self.is_active,
            is_private: self.is_private,
            owner: self.owner,
            description: self.description@,
            category: self.category@,
            goal: self.goal,
            total_received: self.total_received,
            history: self.tips_history@,
            cursor: self.last_tip_index as nat,
            total_tips_count: self.total_tips_count,
            bump: self.bump,
        }
    }
}

impl JarModel {
    /// The record's invariant: a bounded ring whose cursor only moves once
    /// it is full, well-formed tips, and metadata within its bounds.
    pub open spec fn wf(self) -> bool {
        &&& self.history.len() <= MAX_HISTORY_LEN
        &&& self.cursor < MAX_HISTORY_LEN
        &&& self.history.len() < MAX_HISTORY_LEN ==> self.cursor == 0
        &&& forall|i: int| 0 <= i < self.history.len() ==> (#[trigger] self.history[i]).wf()
        &&& self.goal > 0
        &&& utf8_len(self.description) <= MAX_DESCRIPTION_LEN
        &&& utf8_len(self.category) <= MAX_CATEGORY_LEN
    }
}

impl TipJar {
    /// Bytes the host allocates for one jar: the discriminator, the fixed
    /// fields, both texts at their bound with length prefixes, and a full
    /// history with its length prefix.
    pub fn space() -> (r: usize)
        ensures
            r == DISCRIMINATOR_LENGTH + STATIC_SIZE + 4 + MAX_DESCRIPTION_LEN + 4
                + MAX_CATEGORY_LEN + 4 + MAX_HISTORY_LEN * TIP_SIZE,
    {
        DISCRIMINATOR_LENGTH + STATIC_SIZE + 4 + MAX_DESCRIPTION_LEN + 4 + MAX_CATEGORY_LEN + 4
            + MAX_HISTORY_LEN * TIP_SIZE
    }

    /// Whether the record meets its invariant, as a record loaded from
    /// storage must before it is changed.
    pub fn is_well_formed(&self) -> (r: bool)
        ensures
            r == self@.wf(),
    {
        let len = self.tips_history.len();
        if len > MAX_HISTORY_LEN || self.last_tip_index as usize >= MAX_HISTORY_LEN {
            return false;
        }
        if len < MAX_HISTORY_LEN && self.last_tip_index != 0 {
            return false;
        }
        if self.goal == 0 || byte_len(&self.description) > MAX_DESCRIPTION_LEN || byte_len(
            &self.category,
        ) > MAX_CATEGORY_LEN {
            return false;
        }
        let mut i: usize = 0;
        while i < len
            invariant
                i <= len,
                len == self.tips_history@.len(),
                forall|j: int| 0 <= j < i ==> (#[trigger] self.tips_history@[j]).wf(),
            decreases len - i,
        {
            let t = &self.tips_history[i];
            if t.amount == 0 || byte_len(&t.memo) > MAX_MEMO_LEN {
                return false;
            }
            i = i + 1;
        }
        true
    }

    /// Puts `tip` into the history: appended while there is room, otherwise
    /// over the slot under the cursor, which then advances modulo the capacity.
    pub fn record_tip(&mut self, tip: Tip)
        requires
            old(self)@.wf(),
            tip.wf(),
        ensures
            final(self)@ == (JarModel {
                history: ring_insert(old(self)@.history, old(self)@.cursor, tip).0,
                cursor: ring_insert(old(self)@.history, old(self)@.cursor, tip).1,
                ..old(self)@
            }),
            final(self)@.wf(),
    {
        if self.tips_history.len() < MAX_HISTORY_LEN {
            self.tips_history.push(tip);
        } else {
            let index = self.last_tip_index as usize % MAX_HISTORY_LEN;
            self.tips_history.set(index, tip);
            self.last_tip_index = ((self.last_tip_index as usize + 1) % MAX_HISTORY_LEN) as u16;
        }
    }
}

} // verus!
