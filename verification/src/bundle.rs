//! Collections of services that work together.
use crate::command::{
    append_components, components, law_components_are_seen_in_order, law_prefix_is_seen_in_order,
    prefix_components,
};
use crate::service::{ReifiedService, Service};
use crate::socket_shims::UnixSocketInterface;
use vstd::prelude::*;
use vstd::slice::slice_to_vec;

verus! {

/// Trait implemented by "bundles" of services that all work together and call each other.
///
/// Provides a unified interface for applying *base context directories* and *executor commands* to
/// all of a collection of services.
pub trait ServiceBundle: Sized {
    /// The base context directory of all the services. A bundle that is verified says what it is;
    /// nothing is known of it for one that is not.
    open spec fn spec_base(&self) -> Seq<u8> {
        arbitrary()
    }

    /// The executor prefix of all the services, likewise.
    open spec fn spec_prefix(&self) -> Option<Seq<Seq<u8>>> {
        arbitrary()
    }

    /// Create the service bundle with the given base context directory.
    fn new(base_context_directory: &[u8]) -> (bundle: Self)
        ensures
            bundle.spec_base() == base_context_directory@,
            bundle.spec_prefix() is None,
    ;

    /// Create the service bundle with the base context directory, along with an executor prefix.
    fn with_executor_prefix(base_context_directory: &[u8], executor_prefix: &[Vec<u8>]) -> (bundle:
        Self)
        ensures
            bundle.spec_base() == base_context_directory@,
            bundle.spec_prefix() == Some(components(executor_prefix@)),
    ;
}

/// What the services of a bundle have in common.
#[derive(Debug, PartialEq, Eq)]
pub struct BundleContext {
    executor_prefix: Option<Vec<Vec<u8>>>,
    base_context_path: Vec<u8>,
}

impl ServiceBundle for BundleContext {
    closed spec fn spec_base(&self) -> Seq<u8> {
        self.base_context_path@
    }

    closed spec fn spec_prefix(&self) -> Option<Seq<Seq<u8>>> {
        match self.executor_prefix {
            Some(prefix) => Some(components(prefix@)),
            None => None,
        }
    }

    fn new(base_context_directory: &[u8]) -> (bundle: Self) {
        BundleContext {
            base_context_path: slice_to_vec(base_context_directory),
            executor_prefix: None,
        }
    }

    fn with_executor_prefix(base_context_directory: &[u8], executor_prefix: &[Vec<u8>]) -> (bundle:
        Self) {
        let mut prefix: Vec<Vec<u8>> = Vec::new();
        append_components(&mut prefix, executor_prefix);
        assert(components(prefix@) =~= components(executor_prefix@));
        BundleContext {
            base_context_path: slice_to_vec(base_context_directory),
            executor_prefix: Some(prefix),
        }
    }
}

impl BundleContext {
    /// Reify a service of the bundle, in the bundle's directory and with its executor prefix.
    pub fn reify<S: Service<U>, U: UnixSocketInterface>(&self, service: S) -> (reified:
        ReifiedService<'_, S, U>)
        ensures
            reified.service() == service,
            reified.base() == self.spec_base(),
            prefix_components(reified.prefix()) == self.spec_prefix(),
    {
        match &self.executor_prefix {
            Some(prefix) => ReifiedService::reify_service_with_executor(
                service,
                self.base_context_path.as_slice(),
                prefix.as_slice(),
            ),
            None => ReifiedService::reify_service(service, self.base_context_path.as_slice()),
        }
    }
}

/// A bundle hands its executor prefix on to its services as it was given: the same number of
/// components, each byte for byte, in the same order; and none if none was given.
pub proof fn law_services_get_the_prefix_of_their_bundle<
    B: ServiceBundle,
    S: Service<U>,
    U: UnixSocketInterface,
>(bundle: B, given: Option<&[Vec<u8>]>, reified: ReifiedService<'_, S, U>)
    requires
        match given {
            Some(prefix) => bundle.spec_prefix() == Some(components(prefix@)),
            None => bundle.spec_prefix() is None,
        },
        prefix_components(reified.prefix()) == bundle.spec_prefix(),
    ensures
        match given {
            Some(prefix) => reified.prefix() matches Some(got) && got@.len() == prefix@.len() && (
            forall|i: int| 0 <= i < prefix@.len() ==> (#[trigger] got@[i])@ == prefix@[i]@),
            None => reified.prefix() is None,
        },
{
    if let Some(prefix) = given {
        law_components_are_seen_in_order(prefix@);
        if let Some(got) = reified.prefix() {
            law_components_are_seen_in_order(got@);
            law_prefix_is_seen_in_order(got);
            assert forall|i: int| 0 <= i < prefix@.len() implies (#[trigger] got@[i])@
                == prefix@[i]@ by {
                assert(components(got@)[i] == components(prefix@)[i]);
            }
        }
    }
}

} // verus!
