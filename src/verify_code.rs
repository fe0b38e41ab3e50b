use vstd::prelude::*;
use rand::distributions::DistString;
use crate::error::Error;

verus! {

/// A code issued to a phone number or an e-mail address.
pub struct CodeEntry {
    pub target: String,
    pub code: String,
}

/// The latest code issued to each target, from a record of issues in order.
pub open spec fn latest_codes(issued: Seq<(Seq<char>, Seq<char>)>) -> Map<Seq<char>, Seq<char>>
    decreases issued.len(),
{
    if issued.len() == 0 {
        Map::empty()
    } else {
        latest_codes(issued.drop_last()).insert(issued.last().0, issued.last().1)
    }
}

/// The value under `k`, if any.
pub open spec fn lookup<K, V>(m: Map<K, V>, k: K) -> Option<V> {
    if m.contains_key(k) {
        Some(m[k])
    } else {
        None
    }
}

/// Relies on rand's `Alphanumeric.sample_string` with `thread_rng`: six
/// random ASCII letters or digits.
#[verifier::external_body]
fn random_code() -> (r: String)
    ensures
        r@.len() == 6,
        forall|i: int|
            0 <= i < 6 ==> ('0' <= #[trigger] r@[i] <= '9' || 'A' <= r@[i] <= 'Z' || 'a' <= r@[i]
                <= 'z'),
{
    rand::distributions::Alphanumeric.sample_string(&mut rand::thread_rng(), 6)
}

pub open spec fn entries_view(v: Seq<CodeEntry>) -> Seq<(Seq<char>, Seq<char>)> {
    v.map_values(|e: CodeEntry| (e.target@, e.code@))
}

fn latest_code_in(entries: &Vec<CodeEntry>, target: &String) -> (r: Option<String>)
    ensures
        match r {
            Some(c) => lookup(latest_codes(entries_view(entries@)), target@) == Some(c@),
            None => lookup(latest_codes(entries_view(entries@)), target@) is None,
        },
{
    let ghost all = entries_view(entries@);
    let mut i: usize = entries.len();
    assert(all.take(i as int) =~= all);
    while i > 0
        invariant
            i <= entries@.len(),
            all == entries_view(entries@),
            lookup(latest_codes(all), target@) == lookup(latest_codes(all.take(i as int)), target@),
        decreases i,
    {
        assert(all.take(i as int).drop_last() =~= all.take(i - 1));
        if entries[i - 1].target == *target {
            return Some(entries[i - 1].code.clone());
        }
        i = i - 1;
    }
    None
}

/// Issues verification codes over a delivery channel and checks them.
pub trait VerifyCodeManager: Sized {
    /// The code currently valid for each phone number.
    spec fn phone_codes(&self) -> Map<Seq<char>, Seq<char>>;

    /// The code currently valid for each e-mail address.
    spec fn email_codes(&self) -> Map<Seq<char>, Seq<char>>;

    /// Whether every send succeeds, as with a channel that cannot fail.
    spec fn delivers_always(&self) -> bool;

    /// Issues a code to a phone number; it replaces any earlier one.
    fn send_by_sms(&mut self, phone: String) -> (r: Result<(), Error>)
        ensures
            final(self).email_codes() == old(self).email_codes(),
            r is Ok ==> final(self).phone_codes().contains_key(phone@),
            r is Err ==> final(self).phone_codes() == old(self).phone_codes(),
            r != Err::<(), Error>(Error::MissingContact),
            final(self).delivers_always() == old(self).delivers_always(),
            old(self).delivers_always() ==> r is Ok,
    ;

    /// Issues a code to an e-mail address; it replaces any earlier one.
    fn send_by_email(&mut self, email: String) -> (r: Result<(), Error>)
        ensures
            final(self).phone_codes() == old(self).phone_codes(),
            r is Ok ==> final(self).email_codes().contains_key(email@),
            r is Err ==> final(self).email_codes() == old(self).email_codes(),
            r != Err::<(), Error>(Error::MissingContact),
            final(self).delivers_always() == old(self).delivers_always(),
            old(self).delivers_always() ==> r is Ok,
    ;

    /// Succeeds exactly when `code` is the code valid for `phone`.
    fn verify_sms_code(&self, phone: &String, code: &String) -> (r: Result<(), Error>)
        ensures
            r is Ok <==> lookup(self.phone_codes(), phone@) == Some(code@),
            r is Err ==> r == Err::<(), Error>(Error::InvalidVerifyCode),
    ;

    /// Succeeds exactly when `code` is the code valid for `email`.
    fn verify_email_code(&self, email: &String, code: &String) -> (r: Result<(), Error>)
        ensures
            r is Ok <==> lookup(self.email_codes(), email@) == Some(code@),
            r is Err ==> r == Err::<(), Error>(Error::InvalidVerifyCode),
    ;
}

/// Issues random six-character codes and keeps them in memory. Delivery is
/// left to the caller, who reads the issued code back.
pub struct FakeVerifyCodeManager {
    email: Vec<CodeEntry>,
    phone: Vec<CodeEntry>,
}

impl FakeVerifyCodeManager {
    pub fn new() -> (r: FakeVerifyCodeManager)
        ensures
            r.email_codes() == Map::<Seq<char>, Seq<char>>::empty(),
            r.phone_codes() == Map::<Seq<char>, Seq<char>>::empty(),
    {
        let r = FakeVerifyCodeManager { email: Vec::new(), phone: Vec::new() };
        assert(entries_view(r.email@) =~= Seq::<(Seq<char>, Seq<char>)>::empty());
        assert(entries_view(r.phone@) =~= Seq::<(Seq<char>, Seq<char>)>::empty());
        r
    }

    /// The latest code issued to a phone number, for delivery.
    pub fn sms_code(&self, phone: &String) -> (r: Option<String>)
        ensures
            text_option(r) == lookup(self.phone_codes(), phone@),
    {
        latest_code_in(&self.phone, phone)
    }

    /// The latest code issued to an e-mail address, for delivery.
    pub fn email_code(&self, email: &String) -> (r: Option<String>)
        ensures
            text_option(r) == lookup(self.email_codes(), email@),
    {
        latest_code_in(&self.email, email)
    }
}

impl VerifyCodeManager for FakeVerifyCodeManager {
    closed spec fn phone_codes(&self) -> Map<Seq<char>, Seq<char>> {
        latest_codes(entries_view(self.phone@))
    }

    closed spec fn email_codes(&self) -> Map<Seq<char>, Seq<char>> {
        latest_codes(entries_view(self.email@))
    }

    open spec fn delivers_always(&self) -> bool {
        true
    }

    fn send_by_sms(&mut self, phone: String) -> (r: Result<(), Error>)
        ensures
            r is Ok,
            exists|c: Seq<char>|
                c.len() == 6 && final(self).phone_codes() == old(self).phone_codes().insert(phone@, c),
    {
        let code = random_code();
        let ghost before = self.phone@;
        self.phone.push(CodeEntry { target: phone, code });
        assert(entries_view(self.phone@).drop_last() =~= entries_view(before));
        Ok(())
    }

    fn send_by_email(&mut self, email: String) -> (r: Result<(), Error>)
        ensures
            r is Ok,
            exists|c: Seq<char>|
                c.len() == 6 && final(self).email_codes() == old(self).email_codes().insert(email@, c),
    {
        let code = random_code();
        let ghost before = self.email@;
        self.email.push(CodeEntry { target: email, code });
        assert(entries_view(self.email@).drop_last() =~= entries_view(before));
        Ok(())
    }

    fn verify_sms_code(&self, phone: &String, code: &String) -> (r: Result<(), Error>) {
        match latest_code_in(&self.phone, phone) {
            Some(c) => if c == *code {
                Ok(())
            } else {
                Err(Error::InvalidVerifyCode)
            },
            None => Err(Error::InvalidVerifyCode),
        }
    }

    fn verify_email_code(&self, email: &String, code: &String) -> (r: Result<(), Error>) {
        match latest_code_in(&self.email, email) {
            Some(c) => if c == *code {
                Ok(())
            } else {
                Err(Error::InvalidVerifyCode)
            },
            None => Err(Error::InvalidVerifyCode),
        }
    }
}

/// An optional text, as its characters.
pub open spec fn text_option(o: Option<String>) -> Option<Seq<char>> {
    match o {
        Some(s) => Some(s@),
        None => None,
    }
}

/// Keeps the issued codes between requests and hands out the manager over
/// them: every manager it hands out issues and checks the same codes.
pub struct FakeVerifyCodeManagerFactory {
    codes: FakeVerifyCodeManager,
}

impl FakeVerifyCodeManagerFactory {
    pub closed spec fn email_codes(&self) -> Map<Seq<char>, Seq<char>> {
        self.codes.email_codes()
    }

    pub closed spec fn phone_codes(&self) -> Map<Seq<char>, Seq<char>> {
        self.codes.phone_codes()
    }

    /// A factory over the given records of issued codes, oldest first.
    pub fn new(email: Vec<CodeEntry>, phone: Vec<CodeEntry>) -> (r: FakeVerifyCodeManagerFactory)
        ensures
            r.email_codes() == latest_codes(entries_view(email@)),
            r.phone_codes() == latest_codes(entries_view(phone@)),
    {
        FakeVerifyCodeManagerFactory { codes: FakeVerifyCodeManager { email, phone } }
    }

    /// The manager over the factory's codes: what it issues stays with the
    /// factory and reaches every manager handed out later.
    pub fn new_verify_code_manager(&mut self) -> (r: &mut FakeVerifyCodeManager)
        ensures
            r.email_codes() == old(self).email_codes(),
            r.phone_codes() == old(self).phone_codes(),
            final(self).email_codes() == final(r).email_codes(),
            final(self).phone_codes() == final(r).phone_codes(),
    {
        &mut self.codes
    }
}

} // verus!
