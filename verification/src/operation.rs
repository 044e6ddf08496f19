//! The operations on containers and the command line that each one runs.

use vstd::prelude::*;

verus! {

/// One request to the container tool.
///
/// A container identifier is whatever the caller supplies: it is handed to the
/// tool as it is, empty or malformed included, and only the tool judges it.
#[derive(Clone, Debug, PartialEq, Eq)]
pub enum Operation {
    /// List every container, running or stopped.
    ListContainers,
    /// Stop the container that `container_id` names.
    StopContainer { container_id: String },
    /// Remove the container that `container_id` names.
    RemoveContainer { container_id: String },
}

/// The mathematical value of an [`Operation`].
pub enum OperationView {
    ListContainers,
    StopContainer { container_id: Seq<char> },
    RemoveContainer { container_id: Seq<char> },
}

impl View for Operation {
    type V = OperationView;

    open spec fn view(&self) -> OperationView {
        match self {
            Operation::ListContainers => OperationView::ListContainers,
            Operation::StopContainer { container_id } => OperationView::StopContainer {
                container_id: container_id@,
            },
            Operation::RemoveContainer { container_id } => OperationView::RemoveContainer {
                container_id: container_id@,
            },
        }
    }
}

/// The name of the executable, which is looked up on the search path.
pub open spec fn program_name() -> Seq<char> {
    "docker"@
}

/// The columns of one container's record in a listing, in the order in which
/// they are printed.
pub open spec fn listing_columns() -> Seq<Seq<char>> {
    seq!["ID"@, "Image"@, "Status"@, "Ports"@, "Names"@]
}

/// The template field that prints the column `name` of a container.
pub open spec fn column_field(name: Seq<char>) -> Seq<char> {
    "{{."@ + name + "}}"@
}

/// The output template of a listing: one field for each of
/// [`listing_columns`], in that order, with a tab between neighbours.
pub open spec fn listing_template() -> Seq<char> {
    let columns = listing_columns();
    let tab = seq!['\t'];
    column_field(columns[0]) + tab + column_field(columns[1]) + tab + column_field(columns[2])
        + tab + column_field(columns[3]) + tab + column_field(columns[4])
}

impl OperationView {
    /// The subcommand of the tool that carries the operation out.
    pub open spec fn subcommand(self) -> Seq<char> {
        match self {
            OperationView::ListContainers => "ps"@,
            OperationView::StopContainer { .. } => "stop"@,
            OperationView::RemoveContainer { .. } => "rm"@,
        }
    }

    /// The argument vector that the tool is started with: the subcommand, then
    /// for a listing the flags that ask for all containers in the tab-separated
    /// template, and for the other two the container identifier alone.
    pub open spec fn arguments(self) -> Seq<Seq<char>> {
        match self {
            OperationView::ListContainers => seq![
                self.subcommand(),
                "-a"@,
                "--format"@,
                listing_template(),
            ],
            OperationView::StopContainer { container_id } => seq![self.subcommand(), container_id],
            OperationView::RemoveContainer { container_id } => seq![
                self.subcommand(),
                container_id,
            ],
        }
    }
}

/// The executable to start.
pub fn program() -> (name: &'static str)
    ensures
        name@ == program_name(),
{
    "docker"
}

/// The output template that a listing passes to the tool.
pub fn listing_format() -> (template: &'static str)
    ensures
        template@ == listing_template(),
{
    let template = "{{.ID}}\t{{.Image}}\t{{.Status}}\t{{.Ports}}\t{{.Names}}";
    proof {
        reveal_strlit("{{.ID}}\t{{.Image}}\t{{.Status}}\t{{.Ports}}\t{{.Names}}");
        reveal_strlit("{{.");
        reveal_strlit("}}");
        reveal_strlit("ID");
        reveal_strlit("Image");
        reveal_strlit("Status");
        reveal_strlit("Ports");
        reveal_strlit("Names");
        assert(template@ =~= listing_template());
    }
    template
}

impl Operation {
    /// The subcommand of the tool that carries the operation out.
    pub fn subcommand(&self) -> (name: &'static str)
        ensures
            name@ == self@.subcommand(),
    {
        match self {
            Operation::ListContainers => "ps",
            Operation::StopContainer { .. } => "stop",
            Operation::RemoveContainer { .. } => "rm",
        }
    }

    /// The arguments to start [`program`] with, in order.
    pub fn arguments(&self) -> (arguments: Vec<String>)
        ensures
            arguments.deep_view() == self@.arguments(),
    {
        let mut arguments: Vec<String> = Vec::new();
        arguments.push(String::from_str(self.subcommand()));
        match self {
            Operation::ListContainers => {
                arguments.push(String::from_str("-a"));
                arguments.push(String::from_str("--format"));
                arguments.push(String::from_str(listing_format()));
            },
            Operation::StopContainer { container_id } => {
                arguments.push(container_id.clone());
            },
            Operation::RemoveContainer { container_id } => {
                arguments.push(container_id.clone());
            },
        }
        assert(arguments.deep_view() =~= self@.arguments());
        arguments
    }
}

} // verus!
