use nessuno::ppu::LoopyReg;

#[test]
fn test_loopy_reg() {
    let mut reg = LoopyReg { reg: 0 };
    for cx in 0..32 {
        for cy in 0..32 {
            for ntx in 0..2 {
                for nty in 0..2 {
                    for fy in 0..8 {
                        reg.set_coarse_x(cx);
                        reg.set_coarse_y(cy);
                        reg.set_nametable_x(ntx);
                        reg.set_nametable_y(nty);
                        reg.set_fine_y(fy);

                        assert_eq!(reg.coarse_x(), cx);
                        assert_eq!(reg.coarse_y(), cy);
                        assert_eq!(reg.nametable_x(), ntx);
                        assert_eq!(reg.nametable_y(), nty);
                        assert_eq!(reg.fine_y(), fy);

                        reg.flip_nametable_x();
                        assert_eq!(reg.nametable_x(), (ntx == 0) as u16);
                        reg.flip_nametable_x();
                        assert_eq!(reg.nametable_x(), (ntx != 0) as u16);

                        reg.flip_nametable_y();
                        assert_eq!(reg.nametable_y(), (nty == 0) as u16);
                        reg.flip_nametable_y();
                        assert_eq!(reg.nametable_y(), (nty != 0) as u16);
                    }
                }
            }
        }
    }
}
