//! Products registry: the specification of every known product.
//!
//! The registry is read-only after load. Reading the product files from
//! disk and deserializing them is left to the surrounding process, which
//! hands the finished registry in as plain values.

use vstd::prelude::*;

verus! {

/// Specification of one repository a product installs from.
#[derive(Clone, Debug, PartialEq)]
pub struct RepositorySpec {
    /// Repository URL.
    pub url: String,
    /// Architectures the repository applies to; empty means none.
    pub archs: Vec<String>,
}

/// Software-selection part of a product specification.
#[derive(Clone, Debug, PartialEq)]
pub struct SoftwareSpec {
    /// Repositories to install from.
    pub installation_repositories: Vec<RepositorySpec>,
    /// Patterns that must be installed.
    pub mandatory_patterns: Vec<String>,
    /// Patterns to install when available.
    pub optional_patterns: Option<Vec<String>>,
    /// Packages that must be installed.
    pub mandatory_packages: Vec<String>,
    /// Packages to install when available.
    pub optional_packages: Option<Vec<String>>,
    /// The base product to register.
    pub base_product: String,
}

/// Product specification (e.g., one distribution flavour).
#[derive(Clone, Debug, PartialEq)]
pub struct ProductSpec {
    /// Unique product identifier.
    pub id: String,
    /// Human-readable product name.
    pub name: String,
    /// Human-readable product description.
    pub description: String,
    /// Icon file name.
    pub icon: String,
    /// Software selection of the product.
    pub software: SoftwareSpec,
}

/// Products registry.
#[derive(Clone, Debug, PartialEq)]
pub struct ProductsRegistry {
    /// The specification of every known product.
    pub products: Vec<ProductSpec>,
}

impl ProductsRegistry {
    /// More than one product is known.
    pub open spec fn multiproduct(self) -> bool {
        self.products@.len() > 1
    }

    /// Some product carries the identifier `id`.
    pub open spec fn has_product(self, id: Seq<char>) -> bool {
        exists|i: int| 0 <= i < self.products@.len() && self.products@[i].id@ == id
    }

    /// Creates a registry over the given product specifications.
    pub fn new(products: Vec<ProductSpec>) -> (r: ProductsRegistry)
        ensures
            r.products == products,
    {
        ProductsRegistry { products }
    }

    /// Creates an empty registry.
    pub fn empty() -> (r: ProductsRegistry)
        ensures
            r.products@.len() == 0,
    {
        ProductsRegistry { products: Vec::new() }
    }

    /// Whether the registry holds more than one product.
    pub fn is_multiproduct(&self) -> (r: bool)
        ensures
            r == self.multiproduct(),
    {
        self.products.len() > 1
    }

    /// Looks a product up by its identifier, returning the first match.
    pub fn find(&self, id: &String) -> (r: Option<&ProductSpec>)
        ensures
            r is Some <==> self.has_product(id@),
            r matches Some(p) ==> exists|i: int|
                {
                    &&& 0 <= i < self.products@.len()
                    &&& *p == self.products@[i]
                    &&& self.products@[i].id@ == id@
                    &&& forall|k: int| 0 <= k < i ==> self.products@[k].id@ != id@
                },
    {
        let mut i: usize = 0;
        while i < self.products.len()
            invariant
                i <= self.products@.len(),
                forall|k: int| 0 <= k < i ==> self.products@[k].id@ != id@,
            decreases self.products@.len() - i,
        {
            if self.products[i].id == *id {
                return Some(&self.products[i]);
            }
            i = i + 1;
        }
        None
    }
}

} // verus!
