use vstd::prelude::*;
use crate::loader::{LoaderKind, LoaderS, to_loader, to_slint_loader_enum, loader_of_choice, choice_of_loader};

verus! {

/// A game instance: its name, the version builder that the launcher runs it
/// with (carried along, never read), and whether it is running.
pub struct Instance<B> {
    pub name: String,
    pub version_builder: B,
    pub is_run: bool,
}

/// A row of the instance list, and the content of the form that creates an
/// instance.
#[derive(Debug)]
pub struct InstanceS {
    pub name: String,
    pub version: String,
    pub loader: LoaderS,
    pub loader_version: String,
    pub is_run: bool,
}

/// The description of an instance to create.
#[derive(Debug)]
pub struct SimpleInstance {
    pub pid: u32,
    pub name: String,
    pub version: String,
    pub loader: LoaderKind,
    pub loader_version: String,
    pub is_run: bool,
}

/// The names of a list of instances, in order.
pub open spec fn instance_names<B>(instances: Seq<Instance<B>>) -> Seq<Seq<char>> {
    instances.map_values(|i: Instance<B>| i.name@)
}

/// The row that the instance list shows for a new instance: its name,
/// version and loader version, the form choice of its loader, not running.
pub open spec fn row_of_new_instance(new_instance: SimpleInstance) -> InstanceS {
    InstanceS {
        name: new_instance.name,
        version: new_instance.version,
        loader: choice_of_loader(new_instance.loader),
        loader_version: new_instance.loader_version,
        is_run: false,
    }
}

/// Two rows of the instance list hold the same text, loader and flag.
pub open spec fn same_row(a: InstanceS, b: InstanceS) -> bool {
    &&& a.name@ == b.name@
    &&& a.version@ == b.version@
    &&& a.loader == b.loader
    &&& a.loader_version@ == b.loader_version@
    &&& a.is_run == b.is_run
}

/// Two lists of instance rows hold the same rows in the same order.
pub open spec fn same_rows(a: Seq<InstanceS>, b: Seq<InstanceS>) -> bool {
    &&& a.len() == b.len()
    &&& forall|i: int| 0 <= i < a.len() ==> same_row(#[trigger] a[i], b[i])
}

impl InstanceS {
    /// A copy of the row.
    pub fn copy_row(&self) -> (r: InstanceS)
        ensures
            same_row(r, *self),
    {
        InstanceS {
            name: self.name.clone(),
            version: self.version.clone(),
            loader: self.loader,
            loader_version: self.loader_version.clone(),
            is_run: self.is_run,
        }
    }
}

impl SimpleInstance {
    /// The row that the instance list shows for this instance.
    pub fn row(&self) -> (r: InstanceS)
        ensures
            r == row_of_new_instance(*self),
    {
        InstanceS {
            name: self.name.clone(),
            version: self.version.clone(),
            loader: to_slint_loader_enum(&self.loader),
            loader_version: self.loader_version.clone(),
            is_run: false,
        }
    }

    /// The instance that the creation form describes: not running, with no
    /// process, and with the loader that the form's choice stands for.
    pub fn from_form(form: &InstanceS) -> (r: SimpleInstance)
        ensures
            r.pid == 0,
            r.name@ == form.name@,
            r.version@ == form.version@,
            r.loader == loader_of_choice(form.loader),
            r.loader_version@ == form.loader_version@,
            !r.is_run,
    {
        SimpleInstance {
            pid: 0,
            name: form.name.clone(),
            version: form.version.clone(),
            loader: to_loader(&form.loader),
            loader_version: form.loader_version.clone(),
            is_run: false,
        }
    }
}

/// A copy of a list of instance rows.
pub fn copy_rows(rows: &Vec<InstanceS>) -> (r: Vec<InstanceS>)
    ensures
        same_rows(r@, rows@),
{
    let mut out: Vec<InstanceS> = Vec::new();
    let mut i: usize = 0;
    while i < rows.len()
        invariant
            i <= rows.len(),
            out@.len() == i,
            forall|j: int| 0 <= j < i ==> same_row(#[trigger] out@[j], rows@[j]),
        decreases rows.len() - i,
    {
        out.push(rows[i].copy_row());
        i = i + 1;
    }
    out
}

} // verus!
