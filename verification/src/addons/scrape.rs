use crate::cmd::download::{download_file_spec, job_view, Download, Job, JobView};
use crate::text::{append, chars_of, string_of};
use vstd::prelude::*;

verus! {

/// One entry of what the scrape service found.
#[derive(Clone, Debug, PartialEq, Eq)]
pub struct RemoteItem {
    pub url: String,
    pub encrypted: bool,
}

pub struct ItemView {
    pub url: Seq<char>,
    pub encrypted: bool,
}

impl View for RemoteItem {
    type V = ItemView;

    open spec fn view(&self) -> ItemView {
        ItemView { url: self.url@, encrypted: self.encrypted }
    }
}

/// What the scrape service answered. A `total` or a `success` that the answer
/// left out is not a zero or a `false`: it is absent.
#[derive(Clone, Debug, PartialEq, Eq)]
pub struct ScrapeResponse {
    pub total: Option<u32>,
    pub list: Vec<RemoteItem>,
    pub message: String,
    pub success: Option<bool>,
}

pub struct ResponseView {
    pub total: Option<u32>,
    pub list: Seq<ItemView>,
    pub message: Seq<char>,
    pub success: Option<bool>,
}

impl View for ScrapeResponse {
    type V = ResponseView;

    open spec fn view(&self) -> ResponseView {
        ResponseView {
            total: self.total,
            list: Seq::new(self.list@.len(), |i: int| self.list@[i]@),
            message: self.message@,
            success: self.success,
        }
    }
}

/// What is to be done with an answer of the scrape service.
#[derive(Clone, Debug, PartialEq, Eq)]
pub enum ScrapePlan {
    /// Nothing: scraping was not asked for.
    Idle,
    /// Report the message as an error; download nothing.
    Report(String),
    /// Run these downloads, one after the other. An entry that holds no job
    /// stands for an item whose URL asks for no download.
    Downloads(Vec<Option<Job>>),
}

pub enum ScrapePlanView {
    Idle,
    Report(Seq<char>),
    Downloads(Seq<Option<JobView>>),
}

/// The views of a list of optional jobs.
pub open spec fn job_views(jobs: Seq<Option<Job>>) -> Seq<Option<JobView>> {
    Seq::new(jobs.len(), |i: int| job_view(jobs[i]))
}

impl View for ScrapePlan {
    type V = ScrapePlanView;

    open spec fn view(&self) -> ScrapePlanView {
        match *self {
            ScrapePlan::Idle => ScrapePlanView::Idle,
            ScrapePlan::Report(message) => ScrapePlanView::Report(message@),
            ScrapePlan::Downloads(jobs) => ScrapePlanView::Downloads(job_views(jobs@)),
        }
    }
}

/// Where the scrape service is asked.
pub open spec fn api_base() -> Seq<char> {
    "https://api.kremilly.com/scrape?url="@
}

/// The directory that scraped downloads go to.
pub open spec fn scrape_dir() -> Seq<char> {
    "./"@
}

/// The items that are not encrypted, in their order.
pub open spec fn open_items(items: Seq<ItemView>) -> Seq<ItemView> {
    items.filter(|item: ItemView| !item.encrypted)
}

/// The downloads that a list of items asks for: one for each item that is not
/// encrypted, in order, and none for an encrypted one.
pub open spec fn attempts_spec(items: Seq<ItemView>, no_ignore: bool, no_comments: bool) -> Seq<
    Option<JobView>,
> {
    Seq::new(
        open_items(items).len(),
        |k: int| download_file_spec(open_items(items)[k].url, scrape_dir(), no_ignore, no_comments),
    )
}

/// What is to be done with an answer of the scrape service. An answer that
/// says it failed is reported and nothing is downloaded. One that counts more
/// than zero items has its unencrypted items downloaded. One that counts
/// none, or does not count, is reported.
pub open spec fn get_spec(
    scrape: bool,
    response: ResponseView,
    no_ignore: bool,
    no_comments: bool,
) -> ScrapePlanView {
    if !scrape {
        ScrapePlanView::Idle
    } else if response.success == Some(false) {
        ScrapePlanView::Report(response.message)
    } else if response.total is Some && response.total->0 > 0 {
        ScrapePlanView::Downloads(attempts_spec(response.list, no_ignore, no_comments))
    } else {
        ScrapePlanView::Report(response.message)
    }
}

/// The scrape service as a source of downloads.
pub struct Scrape;

impl Scrape {
    /// The address to ask the scrape service at for `url`.
    pub fn request_uri(url: &str) -> (out: String)
        ensures
            out@ == api_base() + url@,
    {
        let mut out = chars_of("https://api.kremilly.com/scrape?url=");
        append(&mut out, &chars_of(url));
        string_of(&out)
    }

    /// The downloads that the items of an answer ask for.
    pub fn attempts(items: &Vec<RemoteItem>, no_ignore: bool, no_comments: bool) -> (jobs: Vec<
        Option<Job>,
    >)
        ensures
            job_views(jobs@) == attempts_spec(
                Seq::new(items@.len(), |i: int| items@[i]@),
                no_ignore,
                no_comments,
            ),
    {
        let ghost all = Seq::new(items@.len(), |i: int| items@[i]@);
        let mut jobs: Vec<Option<Job>> = Vec::new();
        let mut i: usize = 0;
        proof {
            reveal(Seq::filter);
            assert(all.take(0) =~= Seq::<ItemView>::empty());
            assert(job_views(jobs@) =~= attempts_spec(all.take(0), no_ignore, no_comments));
        }
        while i < items.len()
            invariant
                i <= items.len(),
                all == Seq::new(items@.len(), |i: int| items@[i]@),
                job_views(jobs@) == attempts_spec(all.take(i as int), no_ignore, no_comments),
            decreases items.len() - i,
        {
            let item = &items[i];
            let ghost before = all.take(i as int);
            let ghost prev = job_views(jobs@);
            proof {
                reveal(Seq::filter);
                assert(all.take(i + 1).drop_last() =~= before);
                assert(all.take(i + 1).last() == item@);
            }
            if !item.encrypted {
                let job = Download::download_file(item.url.as_str(), "./", no_ignore, no_comments);
                jobs.push(job);
                proof {
                    assert(open_items(all.take(i + 1)) == open_items(before).push(item@));
                    assert(job_views(jobs@) =~= prev.push(job_view(job)));
                    assert forall|k: int| 0 <= k < prev.len() implies prev[k]
                        == #[trigger] attempts_spec(all.take(i + 1), no_ignore, no_comments)[k] by {
                        assert(prev[k] == attempts_spec(before, no_ignore, no_comments)[k]);
                    }
                    assert(job_views(jobs@) =~= attempts_spec(
                        all.take(i + 1),
                        no_ignore,
                        no_comments,
                    ));
                }
            } else {
                assert(open_items(all.take(i + 1)) == open_items(before));
            }
            i += 1;
        }
        assert(all.take(items@.len() as int) =~= all);
        jobs
    }

    /// What is to be done with the answer that the scrape service gave, where
    /// scraping was asked for (`scrape`).
    pub fn get(scrape: bool, response: &ScrapeResponse, no_ignore: bool, no_comments: bool) -> (plan:
        ScrapePlan)
        ensures
            plan@ == get_spec(scrape, response@, no_ignore, no_comments),
    {
        if !scrape {
            return ScrapePlan::Idle;
        }
        if let Some(success) = response.success {
            if !success {
                return ScrapePlan::Report(response.message.clone());
            }
        }
        match response.total {
            Some(total) => if total > 0 {
                ScrapePlan::Downloads(Scrape::attempts(&response.list, no_ignore, no_comments))
            } else {
                ScrapePlan::Report(response.message.clone())
            },
            None => ScrapePlan::Report(response.message.clone()),
        }
    }
}

/// An encrypted item is never downloaded, and each item that is not encrypted
/// is downloaded exactly once: the downloads asked for are as many as the
/// unencrypted items, the k-th of them is that of the k-th unencrypted item,
/// and a list of encrypted items alone asks for none.
pub proof fn lemma_one_attempt_per_open_item(
    items: Seq<ItemView>,
    no_ignore: bool,
    no_comments: bool,
)
    ensures
        attempts_spec(items, no_ignore, no_comments).len() == open_items(items).len(),
        open_items(items).len() <= items.len(),
        forall|k: int|
            0 <= k < open_items(items).len() ==> !(#[trigger] open_items(items)[k]).encrypted
                && items.contains(open_items(items)[k]),
        forall|k: int|
            0 <= k < open_items(items).len() ==> #[trigger] attempts_spec(
                items,
                no_ignore,
                no_comments,
            )[k] == download_file_spec(
                open_items(items)[k].url,
                scrape_dir(),
                no_ignore,
                no_comments,
            ),
        forall|i: int|
            0 <= i < items.len() && !(#[trigger] items[i]).encrypted ==> open_items(
                items,
            ).contains(items[i]),
        (forall|i: int| 0 <= i < items.len() ==> (#[trigger] items[i]).encrypted) ==> open_items(
            items,
        ).len() == 0,
{
    let pred = |item: ItemView| !item.encrypted;
    let open = open_items(items);
    items.lemma_filter_len(pred);
    lemma_open_items_are_items(items);
    assert forall|k: int| 0 <= k < open.len() implies !(#[trigger] open[k]).encrypted by {
        items.lemma_filter_pred(pred, k);
    }
    assert forall|i: int| 0 <= i < items.len() && !(#[trigger] items[i]).encrypted implies open.contains(
        items[i],
    ) by {
        items.lemma_filter_contains(pred, i);
    }
    if forall|i: int| 0 <= i < items.len() ==> (#[trigger] items[i]).encrypted {
        if open.len() > 0 {
            assert(!open[0].encrypted);
            assert(items.contains(open[0]));
        }
    }
}

/// Every unencrypted item that is kept is an item of the list.
proof fn lemma_open_items_are_items(items: Seq<ItemView>)
    ensures
        forall|k: int|
            0 <= k < open_items(items).len() ==> items.contains(#[trigger] open_items(items)[k]),
    decreases items.len(),
{
    reveal(Seq::filter);
    if items.len() > 0 {
        let shorter = items.drop_last();
        lemma_open_items_are_items(shorter);
        assert forall|k: int| 0 <= k < open_items(items).len() implies items.contains(
            #[trigger] open_items(items)[k],
        ) by {
            if k < open_items(shorter).len() {
                let x = open_items(shorter)[k];
                assert(shorter.contains(x));
                let j = choose|j: int| 0 <= j < shorter.len() && shorter[j] == x;
                assert(items[j] == x);
            } else {
                assert(items[items.len() - 1] == open_items(items)[k]);
            }
        }
    }
}

} // verus!
