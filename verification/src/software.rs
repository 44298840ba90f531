//! Software service: product selection and the software probe.
//!
//! The service owns the selected product and computes, for a probe, the
//! exact plan of repositories to add — one `agama-<index>` alias per
//! repository of the selected product that applies to the configured
//! architecture. Adding the repositories and refreshing their metadata
//! is collaborator work: the surrounding process performs it and feeds
//! each outcome into [`ServiceStatusManager::complete_step`].

use vstd::prelude::*;
use vstd::string::StringExecFns;

use crate::events::{Event, ServiceStatus};
use crate::products::{ProductSpec, ProductsRegistry, RepositorySpec, SoftwareSpec};
use crate::service_status::{first_progress_event, status_event, ServiceStatusManager};

verus! {

/// Actions the software service understands.
#[derive(Clone, Debug, PartialEq)]
pub enum SoftwareAction {
    /// Adds the selected product's repositories and refreshes them.
    Probe,
    /// Asks for the list of known products.
    GetProducts,
    /// Selects the product with the given identifier.
    SelectProduct(String),
}

/// Errors of the software service.
#[derive(Clone, Debug, PartialEq)]
pub enum SoftwareServiceError {
    /// No product carries the given identifier.
    UnknownProduct(String),
    /// A probe was requested before any product was selected.
    NoSelectedProduct,
    /// A second long-running task was requested while one is active.
    AlreadyBusy,
    /// The action channel or the reply channel is closed.
    ServiceUnavailable,
}

impl SoftwareServiceError {
    /// What the error means, for each variant.
    pub open spec fn message_spec(self) -> Seq<char> {
        match self {
            SoftwareServiceError::UnknownProduct(id) => "unknown product: "@ + id@,
            SoftwareServiceError::NoSelectedProduct => "no product is selected"@,
            SoftwareServiceError::AlreadyBusy => "a service task is already running"@,
            SoftwareServiceError::ServiceUnavailable => "the service is unavailable"@,
        }
    }

    /// Human-readable description of the error.
    pub fn message(&self) -> (r: String)
        ensures
            r@ == self.message_spec(),
    {
        match self {
            SoftwareServiceError::UnknownProduct(id) => {
                "unknown product: ".to_owned().concat(id.as_str())
            },
            SoftwareServiceError::NoSelectedProduct => "no product is selected".to_owned(),
            SoftwareServiceError::AlreadyBusy => "a service task is already running".to_owned(),
            SoftwareServiceError::ServiceUnavailable => "the service is unavailable".to_owned(),
        }
    }
}

/// Read model of one product, as handed to clients.
#[derive(Clone, Debug, PartialEq)]
pub struct Product {
    /// Unique product identifier.
    pub id: String,
    /// Human-readable product name.
    pub name: String,
    /// Human-readable product description.
    pub description: String,
    /// Icon file name.
    pub icon: String,
}

/// The decimal digit `d` as a character.
pub open spec fn digit_char(d: nat) -> char {
    if d == 0 {
        '0'
    } else if d == 1 {
        '1'
    } else if d == 2 {
        '2'
    } else if d == 3 {
        '3'
    } else if d == 4 {
        '4'
    } else if d == 5 {
        '5'
    } else if d == 6 {
        '6'
    } else if d == 7 {
        '7'
    } else if d == 8 {
        '8'
    } else {
        '9'
    }
}

/// The decimal writing of `n`, most significant digit first.
pub open spec fn decimal_chars(n: nat) -> Seq<char>
    decreases n,
{
    if n < 10 {
        seq![digit_char(n)]
    } else {
        decimal_chars(n / 10).push(digit_char(n % 10))
    }
}

/// The alias given to the repository at index `n`: `agama-` followed by
/// the decimal writing of `n`.
pub open spec fn alias_chars(n: nat) -> Seq<char> {
    "agama-"@ + decimal_chars(n)
}

/// The repository applies to the given architecture.
pub open spec fn repo_matches_arch(repo: RepositorySpec, arch: Seq<char>) -> bool {
    exists|j: int| 0 <= j < repo.archs@.len() && repo.archs@[j]@ == arch
}

/// The (alias, url) pairs for the repositories among the first `n` that
/// apply to the architecture, in order.
pub open spec fn plan_upto(repos: Seq<RepositorySpec>, arch: Seq<char>, n: int) -> Seq<
    (Seq<char>, Seq<char>),
>
    decreases n,
{
    if n <= 0 {
        Seq::empty()
    } else {
        let prefix = plan_upto(repos, arch, n - 1);
        if repo_matches_arch(repos[n - 1], arch) {
            prefix.push((alias_chars((n - 1) as nat), repos[n - 1].url@))
        } else {
            prefix
        }
    }
}

/// The (alias, url) pairs for every repository that applies to the
/// architecture, in order.
pub open spec fn repository_plan_spec(repos: Seq<RepositorySpec>, arch: Seq<char>) -> Seq<
    (Seq<char>, Seq<char>),
> {
    plan_upto(repos, arch, repos.len() as int)
}

/// The titles of the software probe steps, in order.
pub open spec fn software_step_titles() -> Seq<Seq<char>> {
    seq!["Add base repositories"@, "Refreshing repositories metadata"@]
}

/// The decimal digit `d` as a string slice.
fn digit_str(d: usize) -> (r: &'static str)
    requires
        d < 10,
    ensures
        r@ == seq![digit_char(d as nat)],
{
    let r: &'static str = match d {
        0 => "0",
        1 => "1",
        2 => "2",
        3 => "3",
        4 => "4",
        5 => "5",
        6 => "6",
        7 => "7",
        8 => "8",
        _ => "9",
    };
    proof {
        reveal_strlit("0");
        reveal_strlit("1");
        reveal_strlit("2");
        reveal_strlit("3");
        reveal_strlit("4");
        reveal_strlit("5");
        reveal_strlit("6");
        reveal_strlit("7");
        reveal_strlit("8");
        reveal_strlit("9");
        assert(r@ =~= seq![digit_char(d as nat)]);
    }
    r
}

/// Appends the decimal writing of `n` to `s`.
fn push_decimal(s: &mut String, n: usize)
    ensures
        final(s)@ == old(s)@ + decimal_chars(n as nat),
    decreases n,
{
    if n >= 10 {
        push_decimal(s, n / 10);
        s.append(digit_str(n % 10));
        proof {
            assert(s@ =~= old(s)@ + decimal_chars(n as nat));
        }
    } else {
        s.append(digit_str(n));
        proof {
            assert(s@ =~= old(s)@ + decimal_chars(n as nat));
        }
    }
}

/// The alias given to the repository at index `idx`.
pub fn repository_alias(idx: usize) -> (r: String)
    ensures
        r@ == alias_chars(idx as nat),
{
    let mut s = "agama-".to_owned();
    push_decimal(&mut s, idx);
    s
}

/// Whether the repository applies to the given architecture.
fn has_arch(repo: &RepositorySpec, arch: &String) -> (r: bool)
    ensures
        r == repo_matches_arch(*repo, arch@),
{
    let mut j: usize = 0;
    while j < repo.archs.len()
        invariant
            j <= repo.archs@.len(),
            forall|k: int| 0 <= k < j ==> repo.archs@[k]@ != arch@,
        decreases repo.archs@.len() - j,
    {
        if repo.archs[j] == *arch {
            return true;
        }
        j = j + 1;
    }
    false
}

/// Computes the (alias, url) pairs for every repository of the software
/// selection that applies to the architecture, in order.
pub fn repository_plan(software: &SoftwareSpec, arch: &String) -> (r: Vec<(String, String)>)
    ensures
        r.deep_view() == repository_plan_spec(software.installation_repositories@, arch@),
{
    let mut r: Vec<(String, String)> = Vec::new();
    let mut i: usize = 0;
    while i < software.installation_repositories.len()
        invariant
            i <= software.installation_repositories@.len(),
            r.deep_view() == plan_upto(software.installation_repositories@, arch@, i as int),
        decreases software.installation_repositories@.len() - i,
    {
        let repo = &software.installation_repositories[i];
        if has_arch(repo, arch) {
            let alias = repository_alias(i);
            r.push((alias, repo.url.clone()));
        }
        proof {
            assert(r.deep_view() =~= plan_upto(
                software.installation_repositories@,
                arch@,
                i + 1,
            ));
        }
        i = i + 1;
    }
    r
}

/// The product list handed to clients mirrors the registry, product by
/// product and field by field.
pub open spec fn products_listed(products: Seq<ProductSpec>, r: Seq<Product>) -> bool {
    &&& r.len() == products.len()
    &&& forall|i: int| 0 <= i < r.len() ==> {
        &&& (#[trigger] r[i]).id == products[i].id
        &&& r[i].name == products[i].name
        &&& r[i].description == products[i].description
        &&& r[i].icon == products[i].icon
    }
}

/// Everything a successfully dispatched software `Probe` brings about:
/// the tracker runs a fresh sequence over the software steps, the events
/// are the first step's snapshot and the busy status change, and the
/// plan is exactly the selected product's repositories for the
/// configured architecture.
pub open spec fn software_probe_started(
    server: SoftwareServiceServer,
    pre_s: ServiceStatusManager,
    post_s: ServiceStatusManager,
    events: Seq<Event>,
    plan: Seq<(Seq<char>, Seq<char>)>,
) -> bool {
    &&& post_s.name == pre_s.name
    &&& post_s.sequence matches Some(s) && ({
        &&& s.current == 0
        &&& s.steps.deep_view() == software_step_titles()
        &&& events.len() == 2
        &&& first_progress_event(events[0], pre_s.name, s.steps@)
        &&& status_event(events[1], pre_s.name, ServiceStatus::Busy)
    })
    &&& server.selected_product matches Some(id) && exists|i: int|
        {
            &&& 0 <= i < server.products.products@.len()
            &&& server.products.products@[i].id@ == id@
            &&& (forall|k: int| 0 <= k < i ==> server.products.products@[k].id@ != id@)
            &&& plan == repository_plan_spec(
                server.products.products@[i].software.installation_repositories@,
                server.arch@,
            )
        }
}

/// A software probe is accepted exactly when no task is active, a
/// product is selected and the registry knows it.
pub open spec fn probe_accepts(server: SoftwareServiceServer, pre_s: ServiceStatusManager) -> bool {
    &&& !pre_s.busy()
    &&& server.selected_product matches Some(id) && server.products.has_product(id@)
}

/// The error a rejected software probe reports: busy-ness first, then a
/// missing selection, then an unknown product.
pub open spec fn probe_rejects(
    server: SoftwareServiceServer,
    pre_s: ServiceStatusManager,
    e: SoftwareServiceError,
) -> bool {
    if pre_s.busy() {
        e == SoftwareServiceError::AlreadyBusy
    } else if server.selected_product is None {
        e == SoftwareServiceError::NoSelectedProduct
    } else {
        e == SoftwareServiceError::UnknownProduct(server.selected_product.unwrap())
    }
}

/// What one dispatched software action asks the surrounding actor loop
/// to do.
#[derive(Debug)]
pub struct SoftwareDispatchEffect {
    /// Events to publish, in order.
    pub events: Vec<Event>,
    /// Reply to send back for a product-list query.
    pub products_reply: Option<Vec<Product>>,
    /// Repositories to add — (alias, url) pairs — before refreshing
    /// their metadata, feeding each outcome into the status tracker.
    pub probe_plan: Option<Vec<(String, String)>>,
}

/// Software service server.
pub struct SoftwareServiceServer {
    /// Registry of the known products.
    pub products: ProductsRegistry,
    /// Identifier of the selected product, if any.
    pub selected_product: Option<String>,
    /// Architecture the repositories are filtered by.
    pub arch: String,
}

impl SoftwareServiceServer {
    /// Creates the service over the given registry, with no product
    /// selected, filtering repositories by `arch`.
    pub fn new(products: ProductsRegistry, arch: String) -> (r: SoftwareServiceServer)
        ensures
            r.products == products,
            r.selected_product is None,
            r.arch == arch,
    {
        SoftwareServiceServer { products, selected_product: None, arch }
    }

    /// Selects the product carrying `product_id`, failing with
    /// [`SoftwareServiceError::UnknownProduct`] — and leaving the
    /// selection untouched — where the registry does not know it.
    pub fn select_product(&mut self, product_id: String) -> (r: Result<(), SoftwareServiceError>)
        ensures
            final(self).products == old(self).products,
            final(self).arch == old(self).arch,
            old(self).products.has_product(product_id@) ==> {
                &&& r is Ok
                &&& final(self).selected_product matches Some(p) && p == product_id
            },
            !old(self).products.has_product(product_id@) ==> {
                &&& *final(self) == *old(self)
                &&& r matches Err(SoftwareServiceError::UnknownProduct(p)) && p == product_id
            },
    {
        if self.products.find(&product_id).is_some() {
            self.selected_product = Some(product_id);
            Ok(())
        } else {
            Err(SoftwareServiceError::UnknownProduct(product_id))
        }
    }

    /// Returns the list of known products, in registry order.
    pub fn get_products(&self) -> (r: Vec<Product>)
        ensures
            products_listed(self.products.products@, r@),
    {
        let mut r: Vec<Product> = Vec::new();
        let mut i: usize = 0;
        while i < self.products.products.len()
            invariant
                i <= self.products.products@.len(),
                products_listed(self.products.products@.take(i as int), r@),
            decreases self.products.products@.len() - i,
        {
            let p = &self.products.products[i];
            r.push(
                Product {
                    id: p.id.clone(),
                    name: p.name.clone(),
                    description: p.description.clone(),
                    icon: p.icon.clone(),
                },
            );
            proof {
                assert(self.products.products@.take(i + 1).len() == i + 1);
            }
            i = i + 1;
        }
        proof {
            assert(self.products.products@.take(self.products.products@.len() as int)
                =~= self.products.products@);
        }
        r
    }

    /// Starts the software probe.
    ///
    /// Validates the selection first — nothing is touched on a failure,
    /// so the busy state can never be left stuck — then starts the probe
    /// sequence on the tracker and returns the repository plan for the
    /// caller to carry out.
    pub fn probe(&self, status: &mut ServiceStatusManager) -> (r: Result<
        (Vec<Event>, Vec<(String, String)>),
        SoftwareServiceError,
    >)
        requires
            old(status).wf(),
        ensures
            final(status).wf(),
            !probe_accepts(*self, *old(status)) ==> {
                &&& *final(status) == *old(status)
                &&& r matches Err(e) && probe_rejects(*self, *old(status), e)
            },
            probe_accepts(*self, *old(status)) ==> (r matches Ok(pair) && software_probe_started(
                *self,
                *old(status),
                *final(status),
                pair.0@,
                pair.1.deep_view(),
            )),
    {
        if status.is_busy() {
            return Err(SoftwareServiceError::AlreadyBusy);
        }
        let id = match &self.selected_product {
            Some(id) => id,
            None => {
                return Err(SoftwareServiceError::NoSelectedProduct);
            },
        };
        let product = match self.products.find(id) {
            Some(p) => p,
            None => {
                return Err(SoftwareServiceError::UnknownProduct(id.clone()));
            },
        };
        let mut steps: Vec<String> = Vec::new();
        steps.push("Add base repositories".to_owned());
        steps.push("Refreshing repositories metadata".to_owned());
        proof {
            assert(steps.deep_view() =~= software_step_titles());
        }
        let events = status.start(steps).unwrap();
        let plan = repository_plan(&product.software, &self.arch);
        Ok((events, plan))
    }

    /// Dispatches one action.
    pub fn dispatch(&mut self, action: SoftwareAction, status: &mut ServiceStatusManager) -> (r:
        Result<SoftwareDispatchEffect, SoftwareServiceError>)
        requires
            old(status).wf(),
        ensures
            final(status).wf(),
            final(self).products == old(self).products,
            final(self).arch == old(self).arch,
            action is GetProducts ==> {
                &&& *final(self) == *old(self)
                &&& *final(status) == *old(status)
                &&& r matches Ok(eff) && ({
                    &&& eff.events@.len() == 0
                    &&& eff.probe_plan is None
                    &&& eff.products_reply matches Some(v) && products_listed(
                        old(self).products.products@,
                        v@,
                    )
                })
            },
            action matches SoftwareAction::SelectProduct(id) ==> {
                &&& *final(status) == *old(status)
                &&& old(self).products.has_product(id@) ==> (r matches Ok(eff) && ({
                    &&& final(self).selected_product matches Some(p) && p == id
                    &&& eff.events@.len() == 0
                    &&& eff.products_reply is None
                    &&& eff.probe_plan is None
                }))
                &&& !old(self).products.has_product(id@) ==> ({
                    &&& *final(self) == *old(self)
                    &&& r matches Err(SoftwareServiceError::UnknownProduct(p)) && p == id
                })
            },
            action is Probe ==> {
                &&& *final(self) == *old(self)
                &&& !probe_accepts(*old(self), *old(status)) ==> {
                    &&& *final(status) == *old(status)
                    &&& r matches Err(e) && probe_rejects(*old(self), *old(status), e)
                }
                &&& probe_accepts(*old(self), *old(status)) ==> (r matches Ok(eff) && ({
                    &&& eff.products_reply is None
                    &&& eff.probe_plan matches Some(plan) && software_probe_started(
                        *old(self),
                        *old(status),
                        *final(status),
                        eff.events@,
                        plan.deep_view(),
                    )
                }))
            },
    {
        match action {
            SoftwareAction::GetProducts => {
                let products = self.get_products();
                Ok(
                    SoftwareDispatchEffect {
                        events: Vec::new(),
                        products_reply: Some(products),
                        probe_plan: None,
                    },
                )
            },
            SoftwareAction::SelectProduct(id) => {
                self.select_product(id)?;
                Ok(
                    SoftwareDispatchEffect {
                        events: Vec::new(),
                        products_reply: None,
                        probe_plan: None,
                    },
                )
            },
            SoftwareAction::Probe => {
                let (events, plan) = self.probe(status)?;
                Ok(
                    SoftwareDispatchEffect {
                        events,
                        products_reply: None,
                        probe_plan: Some(plan),
                    },
                )
            },
        }
    }
}

} // verus!
