use vstd::prelude::*;

verus! {

/// The mod loaders that the launcher can build an instance with.
#[derive(Clone, Copy, Debug, PartialEq, Eq, Structural)]
pub enum LoaderKind {
    Vanilla,
    Fabric,
    Forge,
    Optifine,
    NeoForge,
    Quilt,
    LightyUpdater,
}

/// The loader choices that the instance form offers.
#[derive(Clone, Copy, Debug, PartialEq, Eq, Structural)]
pub enum LoaderS {
    Vanilla,
    Fabric,
    Forge,
    Optifine,
    NeoForge,
    Quilt,
}

/// The loader that a choice of the form stands for.
pub open spec fn loader_of_choice(choice: LoaderS) -> LoaderKind {
    match choice {
        LoaderS::Vanilla => LoaderKind::Vanilla,
        LoaderS::Fabric => LoaderKind::Fabric,
        LoaderS::Forge => LoaderKind::Forge,
        LoaderS::Optifine => LoaderKind::Optifine,
        LoaderS::NeoForge => LoaderKind::NeoForge,
        LoaderS::Quilt => LoaderKind::Quilt,
    }
}

/// The form choice that shows a loader; the updater loader has no choice of
/// its own and is shown as vanilla.
pub open spec fn choice_of_loader(loader: LoaderKind) -> LoaderS {
    match loader {
        LoaderKind::Vanilla => LoaderS::Vanilla,
        LoaderKind::Fabric => LoaderS::Fabric,
        LoaderKind::Forge => LoaderS::Forge,
        LoaderKind::Optifine => LoaderS::Optifine,
        LoaderKind::NeoForge => LoaderS::NeoForge,
        LoaderKind::Quilt => LoaderS::Quilt,
        LoaderKind::LightyUpdater => LoaderS::Vanilla,
    }
}

/// Turns the loader chosen in the instance form into the launcher's loader.
pub fn to_loader(loader: &LoaderS) -> (r: LoaderKind)
    ensures
        r == loader_of_choice(*loader),
{
    match loader {
        LoaderS::Vanilla => LoaderKind::Vanilla,
        LoaderS::Fabric => LoaderKind::Fabric,
        LoaderS::Forge => LoaderKind::Forge,
        LoaderS::Optifine => LoaderKind::Optifine,
        LoaderS::NeoForge => LoaderKind::NeoForge,
        LoaderS::Quilt => LoaderKind::Quilt,
    }
}

/// Turns a launcher loader into the choice that the instance list shows.
pub fn to_slint_loader_enum(loader: &LoaderKind) -> (r: LoaderS)
    ensures
        r == choice_of_loader(*loader),
{
    match loader {
        LoaderKind::Vanilla => LoaderS::Vanilla,
        LoaderKind::Fabric => LoaderS::Fabric,
        LoaderKind::Forge => LoaderS::Forge,
        LoaderKind::Optifine => LoaderS::Optifine,
        LoaderKind::NeoForge => LoaderS::NeoForge,
        LoaderKind::Quilt => LoaderS::Quilt,
        LoaderKind::LightyUpdater => LoaderS::Vanilla,
    }
}

/// A loader chosen in the form is shown again as the same choice.
pub proof fn lemma_choice_round_trip(choice: LoaderS)
    ensures
        choice_of_loader(loader_of_choice(choice)) == choice,
{
}

/// Every loader but the updater is the loader of the choice that shows it.
pub proof fn lemma_loader_round_trip(loader: LoaderKind)
    requires
        loader != LoaderKind::LightyUpdater,
    ensures
        loader_of_choice(choice_of_loader(loader)) == loader,
{
}

/// No two form choices stand for the same loader, and none stands for the updater.
pub proof fn lemma_choices_distinct(a: LoaderS, b: LoaderS)
    ensures
        loader_of_choice(a) == loader_of_choice(b) ==> a == b,
        loader_of_choice(a) != LoaderKind::LightyUpdater,
{
}

} // verus!
