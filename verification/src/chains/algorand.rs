//! Algorand: the paginated list of RIO balances and the asset's supply.
//!
//! The indexer answers the balance listing one page at a time; a page that
//! carries a `next_token` has a successor, fetched from the listing's own
//! URL with that token appended.  Every balance in every page is one holder.
use vstd::prelude::*;

verus! {

/// The indexer's listing of accounts that hold a positive amount of RIO
/// (Algorand asset 2751733).
pub const ALGORAND_BALANCES_URL: &'static str =
    "http://mainnet-idx.algonode.network/v2/assets/2751733/balances?currency-greater-than=0";

/// One account's balance of the Algorand asset.
#[derive(Clone, Debug)]
pub struct Balance {
    pub address: String,
    pub amount: i64,
    pub deleted: bool,
    pub is_frozen: bool,
    pub opted_in_at_round: i64,
}

/// One page of the Algorand balance listing.
#[derive(Clone, Debug)]
pub struct Algoholder {
    pub balances: Vec<Balance>,
    pub current_round: i64,
    pub next_token: Option<String>,
}

/// The indexer's description of the Algorand asset.
#[derive(Clone, Debug)]
pub struct AlgoSupply {
    pub asset: Asset,
    pub current_round: i64,
}

/// The asset inside an [`AlgoSupply`].
#[derive(Clone, Debug)]
pub struct Asset {
    pub created_at_round: i64,
    pub deleted: bool,
    pub index: i64,
    pub params: Params,
}

/// The parameters of an Algorand asset.
#[derive(Clone, Debug)]
pub struct Params {
    pub clawback: String,
    pub creator: String,
    pub decimals: i64,
    pub default_frozen: bool,
    pub freeze: String,
    pub manager: String,
    pub name: String,
    pub name_b64: String,
    pub reserve: String,
    pub total: i64,
    pub unit_name: String,
    pub unit_name_b64: String,
    pub url: String,
    pub url_b64: String,
}

impl AlgoSupply {
    /// The supply of the asset on Algorand: the `total` of its parameters.
    pub fn total_supply(&self) -> (r: i64)
        ensures
            r == self.asset.params.total,
    {
        self.asset.params.total
    }
}

/// The URL of the page that follows the one whose `next_token` is `token`:
/// the listing's URL with `&next=` and the token appended.
pub open spec fn next_page_url(token: Seq<char>) -> Seq<char> {
    ALGORAND_BALANCES_URL@ + "&next="@ + token
}

/// The number of balances in a sequence of pages.
pub open spec fn balances_in(pages: Seq<Algoholder>) -> nat
    decreases pages.len(),
{
    if pages.len() == 0 {
        0
    } else {
        balances_in(pages.drop_last()) + pages.last().balances@.len()
    }
}

/// Builds the URL of the page that follows a page with `next_token == token`.
pub fn next_page_url_for(token: &str) -> (r: String)
    ensures
        r@ == next_page_url(token@),
        r@ == ALGORAND_BALANCES_URL@ + "&next="@ + token@,
{
    let url = String::from_str(ALGORAND_BALANCES_URL);
    let url = url.concat("&next=");
    url.concat(token)
}

/// What the walk over the Algorand listing does next.
#[derive(Debug)]
pub enum AlgorandStep {
    /// Fetch the page at this URL and record it.
    Fetch(String),
    /// The last page was recorded: the count is final.
    Finished,
}

/// The walk over the paginated Algorand balance listing: the pages read so
/// far, in order, and the number of balances they hold.
pub struct AlgorandHolderScan {
    pages: Vec<Algoholder>,
    balances_seen: usize,
}

impl View for AlgorandHolderScan {
    type V = Seq<Algoholder>;

    /// The pages recorded so far, in the order they were read.
    closed spec fn view(&self) -> Seq<Algoholder> {
        self.pages@
    }
}

impl AlgorandHolderScan {
    /// The running count agrees with the pages recorded.
    pub closed spec fn wf(&self) -> bool {
        self.balances_seen == balances_in(self.pages@)
    }

    /// Starts a walk: nothing recorded yet, and the first page to fetch is
    /// the listing itself.
    pub fn start() -> (r: (AlgorandHolderScan, String))
        ensures
            r.0.wf(),
            r.0@ == Seq::<Algoholder>::empty(),
            r.1@ == ALGORAND_BALANCES_URL@,
    {
        let scan = AlgorandHolderScan { pages: Vec::new(), balances_seen: 0 };
        (scan, String::from_str(ALGORAND_BALANCES_URL))
    }

    /// Records a fetched page and says what comes next: the URL of the
    /// following page when the page carries a `next_token`, else the end.
    /// A count of balances beyond `usize::MAX` is left out: the addition
    /// that counts them panics there.
    pub fn record_page(&mut self, page: Algoholder) -> (step: AlgorandStep)
        requires
            old(self).wf(),
            balances_in(old(self)@) + page.balances@.len() <= usize::MAX,
        ensures
            final(self).wf(),
            final(self)@ == old(self)@.push(page),
            match page.next_token {
                Some(token) => step matches AlgorandStep::Fetch(url) && url@ == next_page_url(
                    token@,
                ) && url@ == ALGORAND_BALANCES_URL@ + "&next="@ + token@,
                None => step is Finished,
            },
    {
        let step = match &page.next_token {
            Some(token) => AlgorandStep::Fetch(next_page_url_for(token.as_str())),
            None => AlgorandStep::Finished,
        };
        let ghost before = self.pages@;
        self.balances_seen = self.balances_seen + page.balances.len();
        self.pages.push(page);
        assert(self.pages@.drop_last() =~= before);
        step
    }

    /// The number of balances in the pages recorded so far.
    pub fn balances_seen(&self) -> (r: usize)
        requires
            self.wf(),
        ensures
            r == balances_in(self@),
    {
        self.balances_seen
    }

    /// The number of Algorand holders: one per balance in the recorded
    /// pages, converted to `i64` as `as` does.
    pub fn holder_count(&self) -> (r: i64)
        requires
            self.wf(),
        ensures
            r == balances_in(self@) as i64,
    {
        self.balances_seen as i64
    }
}

/// The follow-up URL is the listing's URL, then `&next=`, then the whole
/// token: it is exactly six characters longer than the listing's URL and
/// the token, starts with the listing's URL and ends with the token.
pub proof fn lemma_next_page_url_keeps_token(token: Seq<char>)
    ensures
        next_page_url(token) == ALGORAND_BALANCES_URL@ + "&next="@ + token,
        next_page_url(token).len() == ALGORAND_BALANCES_URL@.len() + 6 + token.len(),
        next_page_url(token).subrange(0, ALGORAND_BALANCES_URL@.len() as int)
            == ALGORAND_BALANCES_URL@,
        next_page_url(token).subrange(
            next_page_url(token).len() - token.len(),
            next_page_url(token).len() as int,
        ) == token,
{
    reveal_strlit("&next=");
    let base = ALGORAND_BALANCES_URL@;
    let url = base + "&next="@ + token;
    assert(url.subrange(0, base.len() as int) =~= base);
    assert(url.subrange(url.len() - token.len(), url.len() as int) =~= token);
}

/// Two tokens lead to the same follow-up URL only when they are equal: the
/// walk never confuses two pages.
pub proof fn lemma_next_page_url_injective(t1: Seq<char>, t2: Seq<char>)
    ensures
        next_page_url(t1) == next_page_url(t2) <==> t1 == t2,
{
    lemma_next_page_url_keeps_token(t1);
    lemma_next_page_url_keeps_token(t2);
}

/// Counting pages read in two runs gives the sum of the two counts.
pub proof fn lemma_balances_in_concat(p: Seq<Algoholder>, q: Seq<Algoholder>)
    ensures
        balances_in(p + q) == balances_in(p) + balances_in(q),
    decreases q.len(),
{
    if q.len() == 0 {
        assert(p + q =~= p);
    } else {
        lemma_balances_in_concat(p, q.drop_last());
        assert((p + q).drop_last() =~= p + q.drop_last());
        assert((p + q).last() == q.last());
    }
}

/// Recording a page never lowers the count: it grows by exactly the
/// page's balances.
pub proof fn lemma_balances_in_push(p: Seq<Algoholder>, page: Algoholder)
    ensures
        balances_in(p.push(page)) == balances_in(p) + page.balances@.len(),
        balances_in(p) <= balances_in(p.push(page)),
{
    assert(p.push(page).drop_last() =~= p);
}

} // verus!
