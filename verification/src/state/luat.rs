//! What the screen shows after something happened, told line by line and strip by strip.
use crate::chu;
use crate::day::{giu, giu_dung, vi_tri, vi_tri_la_dau};
use crate::state::{
    dong_moi, doi_da_in, doi_mat_dau, doi_trung_gian, id_may_chu, sau_dat_dai, sau_ket_qua, sau_them_job, tat_khi_in_xong,
    DaiHienV, DaiV, JobLogV, LoaiDai, TtV,
};
use crate::su_co::{MaSuCo, MucDo};
use vstd::prelude::*;
use vstd::string::*;

verus! {

/// A line changes only where it is the job's own: while it is on its way it takes the new state, confirmed
/// after all it is printed and no longer in trouble, and where its trace was lost it takes the code if nothing
/// was known of it. Everything else on the line stays.
pub proof fn dong_chi_doi_cua_job(j: JobLogV, id: Seq<char>, tt: Seq<char>, ma: MaSuCo)
    ensures
        j.job_id != id ==> doi_trung_gian(j, id, tt) == j && doi_da_in(j, id) == j && doi_mat_dau(j, id, ma) == j,
        j.job_id == id && (j.trang_thai == "dang_gui"@ || j.trang_thai == "cho_may_in"@) ==> doi_trung_gian(j, id, tt).trang_thai
            == tt,
        j.trang_thai != "dang_gui"@ && j.trang_thai != "cho_may_in"@ ==> doi_trung_gian(j, id, tt) == j,
        j.job_id == id ==> doi_da_in(j, id).trang_thai == "da_in"@ && doi_da_in(j, id).loai is None && doi_da_in(
            j,
            id,
        ).sau_khac_phuc,
        j.job_id == id && j.trang_thai == "khong_ro"@ ==> doi_mat_dau(j, id, ma).loai == Some(ma),
        j.trang_thai != "khong_ro"@ ==> doi_mat_dau(j, id, ma) == j,
        doi_mat_dau(j, id, ma).trang_thai == j.trang_thai && doi_mat_dau(j, id, ma).sau_khac_phuc == j.sau_khac_phuc,
        doi_trung_gian(j, id, tt).loai == j.loai && doi_trung_gian(j, id, tt).sau_khac_phuc == j.sau_khac_phuc,
        ({
            let a = doi_trung_gian(j, id, tt);
            a.job_id == j.job_id && a.so_hoa_don == j.so_hoa_don && a.khach == j.khach && a.ban_da_in == j.ban_da_in && a.luc
                == j.luc
        }),
        ({
            let a = doi_da_in(j, id);
            a.job_id == j.job_id && a.so_hoa_don == j.so_hoa_don && a.khach == j.khach && a.ban_da_in == j.ban_da_in && a.luc
                == j.luc
        }),
        ({
            let a = doi_mat_dau(j, id, ma);
            a.job_id == j.job_id && a.so_hoa_don == j.so_hoa_don && a.khach == j.khach && a.ban_da_in == j.ban_da_in && a.luc
                == j.luc
        }),
{
}

proof fn giu_het_la(ds: Seq<JobLogV>, p: spec_fn(JobLogV) -> bool)
    requires
        forall|i: int| 0 <= i < ds.len() ==> p(#[trigger] ds[i]),
    ensures
        giu(ds, p) == ds,
    decreases ds.len(),
{
    if ds.len() > 0 {
        let d = ds.drop_last();
        assert forall|i: int| 0 <= i < d.len() implies p(#[trigger] d[i]) by {
            assert(d[i] == ds[i]);
        }
        giu_het_la(d, p);
        assert(p(ds[ds.len() - 1]));
        assert(d.push(ds.last()) =~= ds);
    } else {
        assert(giu(ds, p) =~= ds);
    }
}

/// A job that is not on the list yet comes before all that were there, in their order; of more than twenty the
/// oldest is left out.
pub proof fn job_moi_len_dau(ds: Seq<JobLogV>, log: JobLogV, i: int)
    requires
        ds.len() <= 20,
        forall|k: int| 0 <= k < ds.len() ==> (#[trigger] ds[k]).job_id != log.job_id,
    ensures
        sau_them_job(ds, log).len() == (if ds.len() < 20 {
            ds.len() + 1
        } else {
            20
        }),
        sau_them_job(ds, log)[0] == log,
        0 <= i < ds.len() && i < 19 ==> sau_them_job(ds, log)[i + 1] == ds[i],
{
    if log.job_id.len() > 0 {
        giu_het_la(ds, |j: JobLogV| j.job_id != log.job_id);
    }
}

/// A line of a job of which nothing is known yet carries what it was made of and no trouble.
pub proof fn dong_moi_chua_co_gi(id: Seq<char>, so: Seq<char>, khach: Option<Seq<char>>, tt: Seq<char>, luc: Seq<char>)
    ensures
        ({
            let j = dong_moi(id, so, khach, tt, luc);
            j.job_id == id && j.so_hoa_don == so && j.khach == khach && j.trang_thai == tt && j.luc == luc && j.loai is None
                && !j.sau_khac_phuc && j.ban_da_in is None
        }),
{
}

/// The number of an invoice tells its strips apart; where there is none, the id of the job.
pub proof fn khoa_cua_dai(a: DaiV, b: DaiV)
    ensures
        a.so_hoa_don.len() > 0 && a.so_hoa_don == b.so_hoa_don ==> a.khoa() == b.khoa(),
        a.so_hoa_don.len() > 0 && b.so_hoa_don.len() > 0 && a.so_hoa_don != b.so_hoa_don ==> a.khoa() != b.khoa(),
        a.so_hoa_don.len() == 0 && b.so_hoa_don.len() == 0 ==> (a.khoa() == b.khoa() <==> a.job_id == b.job_id),
        a.ma is None ==> a.muc_loi(),
        a.ma matches Some(m) ==> (a.muc_loi() <==> m != MaSuCo::HetMuc && m != MaSuCo::BinhThuong),
{
}

/// A new strip takes the place of that of its own invoice. Strips of other invoices stay, but for one where
/// there would be more than five: then one of an invoice that the server sends again goes, if there is any.
pub proof fn dat_dai_bot_dung_mot(ds: Seq<DaiV>, d: DaiV, x: DaiV)
    requires
        ds.len() <= 5,
        x.khoa() != d.khoa(),
    ensures
        sau_dat_dai(ds, d).contains(d),
        sau_dat_dai(ds, d).contains(x) ==> ds.contains(x),
        forall|k: int| 0 <= k < sau_dat_dai(ds, d).len() - 1 ==> (#[trigger] sau_dat_dai(ds, d)[k]).khoa() != d.khoa(),
        ds.contains(x) && giu(ds, |y: DaiV| y.khoa() != d.khoa()).len() < 5 ==> sau_dat_dai(ds, d).contains(x),
        giu(ds, |y: DaiV| y.khoa() != d.khoa()).len() == 5 ==> sau_dat_dai(ds, d).len() == 5,
        ds.contains(x) && x.loai_dai != LoaiDai::Loi && (exists|k: int|
            0 <= k < ds.len() && (#[trigger] ds[k]).khoa() != d.khoa() && ds[k].loai_dai == LoaiDai::Loi)
            ==> sau_dat_dai(ds, d).contains(x),
{
    let p = |y: DaiV| y.khoa() != d.khoa();
    giu_dung(ds, p);
    let g = giu(ds, p);
    let moi = g.push(d);
    let r = sau_dat_dai(ds, d);
    assert(moi.drop_last() =~= g);
    let q = |y: DaiV| y.loai_dai == LoaiDai::Loi;
    vi_tri_la_dau(g, q, 0);
    let k0 = match vi_tri(g, q, 0) {
        Some(i) => i,
        None => 0,
    };
    if g.len() < 5 {
        assert(r == moi);
        assert(moi[g.len() as int] == d);
    } else {
        assert(r == moi.remove(k0));
        assert(r[4] == moi[5]);
        assert(r[4] == d);
    }
    assert forall|k: int| 0 <= k < r.len() - 1 implies (#[trigger] r[k]).khoa() != d.khoa() by {
        let j = if g.len() < 5 || k < k0 {
            k
        } else {
            k + 1
        };
        assert(r[k] == g[j]);
        assert(p(g[j]));
    }
    if r.contains(x) {
        let k = choose|k: int| 0 <= k < r.len() && r[k] == x;
        let j = if g.len() < 5 || k < k0 {
            k
        } else {
            k + 1
        };
        assert(moi[j] == x);
        assert(g[j] == x);
    }
    if ds.contains(x) {
        let i = choose|i: int| 0 <= i < ds.len() && ds[i] == x;
        assert(p(ds[i]));
        let j = choose|j: int| 0 <= j < g.len() && g[j] == x;
        assert(moi[j] == x);
        if g.len() < 5 {
            assert(r[j] == x);
        } else if exists|k: int| 0 <= k < ds.len() && (#[trigger] ds[k]).khoa() != d.khoa() && ds[k].loai_dai == LoaiDai::Loi {
            let k = choose|k: int| 0 <= k < ds.len() && (#[trigger] ds[k]).khoa() != d.khoa() && ds[k].loai_dai == LoaiDai::Loi;
            assert(p(ds[k]));
            let m = choose|m: int| 0 <= m < g.len() && g[m] == ds[k];
            assert(q(g[m]));
            if x.loai_dai != LoaiDai::Loi {
                assert(q(g[k0]));
                assert(j != k0);
                if j < k0 {
                    assert(r[j] == x);
                } else {
                    assert(r[j - 1] == x);
                }
            }
        }
    }
}

/// A printed job puts away its own strip, and those of other invoices that only waited for the printer: that
/// the server sends again, or whose trouble was in the printer; not one that tells of missing copies.
pub proof fn in_xong_tat_dai(ds: Seq<DaiV>, id: Seq<char>, so: Seq<char>, loai: Option<MaSuCo>, ngoai: bool, ban: Option<
    (u32, u32),
>, x: DaiV)
    requires
        ds.contains(x),
    ensures
        x.job_id == id ==> !sau_ket_qua(ds, id, so, "da_in"@, loai, ngoai, ban).contains(x),
        x.job_id != id && x.ban_da_in is Some ==> sau_ket_qua(ds, id, so, "da_in"@, loai, ngoai, ban).contains(x),
        x.ban_da_in is None && x.loai_dai == LoaiDai::Loi ==> !sau_ket_qua(ds, id, so, "da_in"@, loai, ngoai, ban).contains(x),
        x.ban_da_in is None ==> (x.ma matches Some(m) ==> (m == MaSuCo::HetGiay || m == MaSuCo::KetGiay || m == MaSuCo::Offline
            || m == MaSuCo::MoNap || m == MaSuCo::HetMuc || m == MaSuCo::CanXuLy || m == MaSuCo::LoiMayIn
            ==> !sau_ket_qua(ds, id, so, "da_in"@, loai, ngoai, ban).contains(x))),
        x.job_id != id && x.loai_dai != LoaiDai::Loi && (x.ma is None || x.ma == Some(MaSuCo::KhongXacNhan) || x.ma == Some(
            MaSuCo::LoiSumatra,
        ) || x.ma == Some(MaSuCo::LoiPdf) || x.ma == Some(MaSuCo::KhongTimThayMayIn)) ==> sau_ket_qua(
            ds,
            id,
            so,
            "da_in"@,
            loai,
            ngoai,
            ban,
        ).contains(x),
{
    let p = |d: DaiV| !tat_khi_in_xong(d, id);
    giu_dung(ds, p);
    let g = giu(ds, p);
    assert(sau_ket_qua(ds, id, so, "da_in"@, loai, ngoai, ban) == g);
    let i = choose|i: int| 0 <= i < ds.len() && ds[i] == x;
    assert(p(ds[i]) ==> g.contains(x));
    if g.contains(x) {
        let k = choose|k: int| 0 <= k < g.len() && g[k] == x;
        assert(p(g[k]));
    }
}

/// An outcome that is not printed puts up the job's strip as the newest: one of an error, which the server
/// sends again, or else an open one, which alone tells whether the job has left the queue and how many copies
/// came out.
pub proof fn khong_in_thi_co_dai(ds: Seq<DaiV>, id: Seq<char>, so: Seq<char>, tt: Seq<char>, loai: Option<MaSuCo>, ngoai: bool, ban: Option<
    (u32, u32),
>)
    requires
        ds.len() <= 5,
        tt == "loi"@ || tt == "khong_ro"@,
    ensures
        sau_ket_qua(ds, id, so, tt, loai, ngoai, ban).len() > 0,
        ({
            let d = sau_ket_qua(ds, id, so, tt, loai, ngoai, ban).last();
            &&& d.ma == loai && d.so_hoa_don == so && d.job_id == id
            &&& tt == "loi"@ ==> d.loai_dai == LoaiDai::Loi && !d.ngoai_hang_doi && d.ban_da_in is None
            &&& tt == "khong_ro"@ ==> d.loai_dai == LoaiDai::KhongRo && d.ngoai_hang_doi == ngoai && d.ban_da_in == ban
        }),
{
    reveal_strlit("loi");
    reveal_strlit("khong_ro");
    reveal_strlit("da_in");
    assert("loi"@.len() == 3 && "khong_ro"@.len() == 8 && "da_in"@.len() == 5);
    let d = DaiV {
        loai_dai: if tt == "loi"@ {
            LoaiDai::Loi
        } else {
            LoaiDai::KhongRo
        },
        ma: loai,
        so_hoa_don: so,
        job_id: id,
        ngoai_hang_doi: ngoai && tt != "loi"@,
        ban_da_in: if tt != "loi"@ {
            ban
        } else {
            None
        },
    };
    assert(sau_ket_qua(ds, id, so, tt, loai, ngoai, ban) == sau_dat_dai(ds, d));
    let p = |y: DaiV| y.khoa() != d.khoa();
    giu_dung(ds, p);
    let g = giu(ds, p);
    let moi = g.push(d);
    assert(moi.drop_last() =~= g);
    let q = |y: DaiV| y.loai_dai == LoaiDai::Loi;
    vi_tri_la_dau(g, q, 0);
    if moi.len() > 5 {
        let k0 = match vi_tri(g, q, 0) {
            Some(i) => i,
            None => 0,
        };
        assert(moi.remove(k0)[4] == moi[5]);
    }
}

/// A job whose trace was lost has an open strip as the newest: with the trouble for which it may still lie in
/// the printer where there is one, and else as not confirmed. Its line takes the same code.
pub proof fn mat_dau_co_dai(s: TtV, id: Seq<char>, so: Seq<char>, trong_may: Option<MaSuCo>, k: int)
    requires
        s.dai_jobs.len() <= 5,
    ensures
        s.sau_mat_dau(id, so, trong_may).dai_jobs.len() > 0,
        ({
            let d = s.sau_mat_dau(id, so, trong_may).dai_jobs.last();
            &&& d.loai_dai == LoaiDai::KhongRo && d.job_id == id && d.so_hoa_don == so && d.ban_da_in is None
            &&& trong_may is None ==> d.ma == Some(MaSuCo::KhongXacNhan) && !d.ngoai_hang_doi
            &&& trong_may is Some ==> d.ma == trong_may && d.ngoai_hang_doi
        }),
        s.sau_mat_dau(id, so, trong_may).jobs.len() == s.jobs.len(),
        0 <= k < s.jobs.len() && s.jobs[k].job_id == id && s.jobs[k].trang_thai == "khong_ro"@ ==> s.sau_mat_dau(
            id,
            so,
            trong_may,
        ).jobs[k].loai == (if trong_may is Some {
            trong_may
        } else {
            Some(MaSuCo::KhongXacNhan)
        }),
        0 <= k < s.jobs.len() && (s.jobs[k].job_id != id || s.jobs[k].trang_thai != "khong_ro"@) ==> s.sau_mat_dau(
            id,
            so,
            trong_may,
        ).jobs[k] == s.jobs[k],
        s.sau_mat_dau(id, so, trong_may).may_in == s.may_in,
        s.sau_mat_dau(id, so, trong_may).may_in_da_hieu == s.may_in_da_hieu,
{
    reveal_strlit("loi");
    reveal_strlit("khong_ro");
    reveal_strlit("da_in");
    assert("loi"@.len() == 3 && "khong_ro"@.len() == 8 && "da_in"@.len() == 5);
    let ma = match trong_may {
        Some(m) => m,
        None => MaSuCo::KhongXacNhan,
    };
    khong_in_thi_co_dai(s.dai_jobs, id, so, "khong_ro"@, Some(ma), trong_may is Some, None);
    assert(sau_ket_qua(s.dai_jobs, id, so, "khong_ro"@, Some(ma), trong_may is Some, None) == s.sau_mat_dau(
        id,
        so,
        trong_may,
    ).dai_jobs);
}

/// A reading of the printer is kept; strips of invoices that the server sends again go away only where it is
/// well and nothing is being printed; a strip of the printer that was put away stays away only while the
/// printer reports the same.
pub proof fn doc_may_in_doi_gi(s: TtV, ma: MaSuCo, chi_tiet: Option<Seq<char>>, ranh: bool, x: DaiV)
    requires
        s.dai_jobs.contains(x),
    ensures
        s.sau_may_in(ma, chi_tiet, ranh).may_in == Some((ma, chi_tiet)),
        s.sau_may_in(ma, chi_tiet, ranh).jobs == s.jobs,
        s.sau_may_in(ma, chi_tiet, ranh).dai_jobs.contains(x) <==> !(ranh && ma == MaSuCo::BinhThuong && x.loai_dai
            == LoaiDai::Loi),
        s.may_in_da_hieu == Some(ma) ==> s.sau_may_in(ma, chi_tiet, ranh).may_in_da_hieu == Some(ma),
        s.may_in_da_hieu != Some(ma) ==> s.sau_may_in(ma, chi_tiet, ranh).may_in_da_hieu is None,
        s.sau_may_in(ma, chi_tiet, ranh).ma_may_in() == Some(ma),
        s.sau_may_in(ma, chi_tiet, ranh).dai_may_in() is Some <==> ma != MaSuCo::BinhThuong && s.may_in_da_hieu != Some(ma),
        s.sau_may_in(ma, chi_tiet, ranh).dai_may_in() matches Some(m) ==> m == ma,
{
    let p = |d: DaiV| d.loai_dai != LoaiDai::Loi;
    giu_dung(s.dai_jobs, p);
    let g = giu(s.dai_jobs, p);
    let i = choose|i: int| 0 <= i < s.dai_jobs.len() && s.dai_jobs[i] == x;
    assert(p(s.dai_jobs[i]) ==> g.contains(x));
    if g.contains(x) {
        let k = choose|k: int| 0 <= k < g.len() && g[k] == x;
        assert(p(g[k]));
    }
}

/// What is shown: the newest strip of an invoice, but the printer's error where that strip is a mere warning;
/// the printer's trouble where there is no strip of an invoice; nothing exactly where there is neither. Beside
/// it all the others are counted, the printer's only where the strip does not tell of the same.
pub proof fn hien_cai_moi_nhat(s: TtV)
    ensures
        s.hien() is KhongCo <==> s.dai_jobs.len() == 0 && s.dai_may_in() is None,
        s.dai_jobs.len() > 0 && s.dai_jobs.last().muc_loi() ==> s.hien() == DaiHienV::Job(s.dai_jobs.last()),
        s.dai_jobs.len() > 0 && (s.dai_may_in() is None || s.dai_may_in() == Some(MaSuCo::HetMuc)) ==> s.hien() == DaiHienV::Job(
            s.dai_jobs.last(),
        ),
        s.dai_jobs.len() > 0 && !s.dai_jobs.last().muc_loi() ==> (s.dai_may_in() matches Some(m) ==> (m.muc_cua() == MucDo::Loi
            ==> s.hien() == DaiHienV::MayIn(m))),
        s.dai_jobs.len() == 0 ==> (s.dai_may_in() matches Some(m) ==> s.hien() == DaiHienV::MayIn(m)),
        s.hien() is KhongCo ==> s.so_khac() == 0,
        s.hien() is MayIn ==> s.so_khac() == s.dai_jobs.len(),
        s.hien() matches DaiHienV::Job(j) ==> (s.dai_may_in() is Some && s.dai_may_in() != j.ma ==> s.so_khac()
            == s.dai_jobs.len()) && (s.dai_may_in() is None || s.dai_may_in() == j.ma ==> s.so_khac() == s.dai_jobs.len() - 1),
{
}

/// An id of the server's list is read only out of an id with a dash and thirteen digits at its end.
pub proof fn id_may_chu_chi_dung_mau(id: Seq<char>)
    ensures
        id_may_chu(id) matches Some(x) ==> x.len() > 0 && id.len() == x.len() + 14 && id.subrange(0, x.len() as int) == x
            && id[x.len() as int] == '-' && chu::toan_chu_so(id.subrange(x.len() as int + 1, id.len() as int)),
{
    chu::vi_tri_cuoi_la_cuoi(id, '-', id.len() as int);
}

/// A strip that is put up is the newest.
pub proof fn dai_moi_la_cuoi(ds: Seq<DaiV>, d: DaiV)
    requires
        ds.len() <= 5,
    ensures
        sau_dat_dai(ds, d).len() > 0,
        sau_dat_dai(ds, d).last() == d,
{
    let p = |y: DaiV| y.khoa() != d.khoa();
    giu_dung(ds, p);
    let g = giu(ds, p);
    let moi = g.push(d);
    assert(moi.drop_last() =~= g);
    let q = |y: DaiV| y.loai_dai == LoaiDai::Loi;
    vi_tri_la_dau(g, q, 0);
    if moi.len() > 5 {
        let k0 = match vi_tri(g, q, 0) {
            Some(i) => i,
            None => 0,
        };
        assert(moi.remove(k0)[4] == moi[5]);
    }
}

} // verus!
