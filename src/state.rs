use vstd::prelude::*;
use vstd::string::*;

use crate::error::ManagerError;
use crate::manager::{decimal, texts, LineraManager, ServiceInstance};
use crate::models::ServiceStatus;
use crate::proxy::{base_url_for, chain_target, opt_view, GraphQLProxy};

verus! {

/// Refusal of a forwarded query.
#[derive(Debug, Clone, Copy, PartialEq, Eq)]
pub enum ProxyError {
    ServiceNotRunning,
}

impl ProxyError {
    pub fn message(&self) -> (r: String)
        ensures
            r@ == "Linera service is not running"@,
    {
        String::from_str("Linera service is not running")
    }
}

/// The supervisor together with the proxy of the service it runs: a proxy exists
/// exactly while a service is recorded, and targets that service's port.
#[derive(Debug)]
pub struct AppState<H> {
    manager: LineraManager<H>,
    graphql_proxy: Option<GraphQLProxy>,
}

impl<H> AppState<H> {
    pub closed spec fn manager_spec(&self) -> LineraManager<H> {
        self.manager
    }

    pub closed spec fn proxy_spec(&self) -> Option<GraphQLProxy> {
        self.graphql_proxy
    }

    pub open spec fn wf(&self) -> bool {
        match self.manager_spec().service() {
            Some(i) => self.proxy_spec() is Some && self.proxy_spec()->0.base() == base_url_for(
                i.port,
            ),
            None => self.proxy_spec() is None,
        }
    }

    pub open spec fn status_spec(&self) -> ServiceStatus {
        self.manager_spec().status_spec()
    }

    /// Where a chain query goes, or `None` while no service runs.
    pub open spec fn query_target(&self, chain_id: Seq<char>, app_id: Option<Seq<char>>) -> Option<
        Seq<char>,
    > {
        match self.proxy_spec() {
            Some(p) => Some(chain_target(p.base(), chain_id, app_id)),
            None => None,
        }
    }

    pub fn new(manager: LineraManager<H>) -> (r: Self)
        requires
            !manager.running(),
        ensures
            r.wf(),
            r.manager_spec() == manager,
    {
        AppState { manager, graphql_proxy: None }
    }

    pub fn manager(&self) -> (r: &LineraManager<H>)
        ensures
            *r == self.manager_spec(),
    {
        &self.manager
    }

    /// First step of a start, as `LineraManager::start_service`.
    pub fn start_service(&self, port: u16) -> (r: Result<Vec<String>, ManagerError>)
        ensures
            match self.manager_spec().start_refusal() {
                Some(e) => r == Err::<Vec<String>, ManagerError>(e),
                None => r is Ok && texts(r->Ok_0@) == self.manager_spec().base_args() + seq![
                    "--storage"@,
                    "memory"@,
                    "service"@,
                    "--port"@,
                    decimal(port as nat),
                ],
            },
    {
        self.manager.start_service(port)
    }

    /// Records the launched service and sets up the proxy for its port.
    pub fn service_started(&mut self, handle: H, pid: Option<u32>, port: u16)
        requires
            old(self).wf(),
            !old(self).manager_spec().running(),
        ensures
            final(self).wf(),
            final(self).manager_spec().service() == Some(ServiceInstance { handle, pid, port }),
            final(self).manager_spec().same_paths(&old(self).manager_spec()),
    {
        self.manager.service_started(handle, pid, port);
        self.graphql_proxy = Some(GraphQLProxy::new(port));
    }

    /// Stops as `LineraManager::stop_service`; the proxy goes with the service.
    pub fn stop_service(&mut self) -> (r: Result<ServiceInstance<H>, ManagerError>)
        requires
            old(self).wf(),
        ensures
            final(self).wf(),
            !final(self).manager_spec().running(),
            final(self).manager_spec().same_paths(&old(self).manager_spec()),
            match old(self).manager_spec().service() {
                Some(i) => r == Ok::<ServiceInstance<H>, ManagerError>(i),
                None => r == Err::<ServiceInstance<H>, ManagerError>(ManagerError::NotRunning)
                    && *final(self) == *old(self),
            },
    {
        let r = self.manager.stop_service();
        if r.is_ok() {
            self.graphql_proxy = None;
        }
        r
    }

    pub fn get_status(&self) -> (r: ServiceStatus)
        ensures
            r == self.status_spec(),
    {
        self.manager.status()
    }

    /// Where a chain (or application) query is forwarded; refused while no service runs.
    pub fn proxy_query_target(&self, chain_id: &str, app_id: Option<&str>) -> (r: Result<
        String,
        ProxyError,
    >)
        ensures
            match self.query_target(chain_id@, opt_view(app_id)) {
                Some(u) => r is Ok && r->Ok_0@ == u,
                None => r == Err::<String, ProxyError>(ProxyError::ServiceNotRunning),
            },
    {
        match &self.graphql_proxy {
            Some(p) => Ok(p.query_url(chain_id, app_id)),
            None => Err(ProxyError::ServiceNotRunning),
        }
    }

    /// Where a system query is forwarded; refused while no service runs.
    pub fn proxy_system_target(&self) -> (r: Result<String, ProxyError>)
        ensures
            match self.proxy_spec() {
                Some(p) => r is Ok && r->Ok_0@ == p.base() + "/"@,
                None => r == Err::<String, ProxyError>(ProxyError::ServiceNotRunning),
            },
    {
        match &self.graphql_proxy {
            Some(p) => Ok(p.system_url()),
            None => Err(ProxyError::ServiceNotRunning),
        }
    }
}

} // verus!
