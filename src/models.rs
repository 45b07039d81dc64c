use vstd::prelude::*;

verus! {

/// A host/container port pair; recorded with a service but not applied to
/// the container runtime.
#[derive(Clone, Copy, Debug, PartialEq, Eq, Structural)]
pub struct PortMapping {
    pub host_port: u16,
    pub container_port: u16,
}

/// What a client sends to create or replace a service.
#[derive(Clone, Debug)]
pub struct CreateServiceRequest {
    pub name: String,
    pub image: String,
    pub command: Option<Vec<String>>,
    pub env: Option<Vec<String>>,
    pub ports: Option<Vec<PortMapping>>,
}

/// One service record of the registry.
#[derive(Clone, Debug)]
pub struct Service {
    pub id: String,
    pub name: String,
    pub image: String,
    pub status: String,
    pub command: Option<Vec<String>>,
    pub env: Option<Vec<String>>,
    pub ports: Option<Vec<PortMapping>>,
}

/// Mathematical form of a request.
pub struct RequestView {
    pub name: Seq<char>,
    pub image: Seq<char>,
    pub command: Option<Seq<Seq<char>>>,
    pub env: Option<Seq<Seq<char>>>,
    pub ports: Option<Seq<PortMapping>>,
}

/// Mathematical form of a service record.
pub struct ServiceView {
    pub id: Seq<char>,
    pub name: Seq<char>,
    pub image: Seq<char>,
    pub status: Seq<char>,
    pub command: Option<Seq<Seq<char>>>,
    pub env: Option<Seq<Seq<char>>>,
    pub ports: Option<Seq<PortMapping>>,
}

pub open spec fn texts_view(v: Vec<String>) -> Seq<Seq<char>> {
    v@.map_values(|s: String| s@)
}

pub open spec fn opt_texts_view(o: Option<Vec<String>>) -> Option<Seq<Seq<char>>> {
    match o {
        Some(v) => Some(texts_view(v)),
        None => None,
    }
}

pub open spec fn opt_ports_view(o: Option<Vec<PortMapping>>) -> Option<Seq<PortMapping>> {
    match o {
        Some(v) => Some(v@),
        None => None,
    }
}

impl View for CreateServiceRequest {
    type V = RequestView;

    open spec fn view(&self) -> RequestView {
        RequestView {
            name: self.name@,
            image: self.image@,
            command: opt_texts_view(self.command),
            env: opt_texts_view(self.env),
            ports: opt_ports_view(self.ports),
        }
    }
}

impl View for Service {
    type V = ServiceView;

    open spec fn view(&self) -> ServiceView {
        ServiceView {
            id: self.id@,
            name: self.name@,
            image: self.image@,
            status: self.status@,
            command: opt_texts_view(self.command),
            env: opt_texts_view(self.env),
            ports: opt_ports_view(self.ports),
        }
    }
}

/// The status label that every freshly created or replaced record carries.
pub open spec fn created_status() -> Seq<char> {
    "created"@
}

/// The record built from a request once the runtime has assigned `id`.
pub open spec fn created_record(id: Seq<char>, req: RequestView) -> ServiceView {
    ServiceView {
        id,
        name: req.name,
        image: req.image,
        status: created_status(),
        command: req.command,
        env: req.env,
        ports: req.ports,
    }
}

fn copy_texts(v: &Vec<String>) -> (r: Vec<String>)
    ensures
        texts_view(r) == texts_view(*v),
{
    let mut r: Vec<String> = Vec::new();
    let mut i: usize = 0;
    while i < v.len()
        invariant
            i <= v.len(),
            r@.len() == i,
            forall|j: int| 0 <= j < i ==> r@[j]@ == v@[j]@,
        decreases v.len() - i,
    {
        r.push(v[i].clone());
        i = i + 1;
    }
    assert(texts_view(r) =~= texts_view(*v));
    r
}

fn copy_opt_texts(o: &Option<Vec<String>>) -> (r: Option<Vec<String>>)
    ensures
        opt_texts_view(r) == opt_texts_view(*o),
{
    match o {
        Some(v) => Some(copy_texts(v)),
        None => None,
    }
}

fn copy_opt_ports(o: &Option<Vec<PortMapping>>) -> (r: Option<Vec<PortMapping>>)
    ensures
        opt_ports_view(r) == opt_ports_view(*o),
{
    match o {
        Some(v) => {
            let mut r: Vec<PortMapping> = Vec::new();
            let mut i: usize = 0;
            while i < v.len()
                invariant
                    i <= v.len(),
                    r@ =~= v@.subrange(0, i as int),
                decreases v.len() - i,
            {
                r.push(v[i]);
                i = i + 1;
            }
            assert(r@ =~= v@);
            Some(r)
        },
        None => None,
    }
}

impl Service {
    /// A copy of the record, field for field.
    pub fn copy(&self) -> (r: Service)
        ensures
            r@ == self@,
    {
        Service {
            id: self.id.clone(),
            name: self.name.clone(),
            image: self.image.clone(),
            status: self.status.clone(),
            command: copy_opt_texts(&self.command),
            env: copy_opt_texts(&self.env),
            ports: copy_opt_ports(&self.ports),
        }
    }
}

impl CreateServiceRequest {
    /// The record for this request once the runtime assigned `id` to its
    /// container. The status is "created"; the port mappings are kept as
    /// given.
    pub fn into_record(self, id: String) -> (r: Service)
        ensures
            r@ == created_record(id@, self@),
    {
        Service {
            id,
            name: self.name,
            image: self.image,
            status: "created".to_owned(),
            command: self.command,
            env: self.env,
            ports: self.ports,
        }
    }
}

} // verus!
